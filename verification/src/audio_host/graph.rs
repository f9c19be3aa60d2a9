//! Decisions of constructing, activating and tearing down the mixer graph.

use crate::assoc::NameMap;
use crate::audio_host::endpoints::{
    deliberate, EndpointId, EndpointPlan, PipeWireEndpointDirection,
};
use crate::audio_host::filter::{FaultRecord, ProcessFault, FILTER_STATE_STREAMING};
use crate::audio_host::registry::{
    find_port, law_ports_are_found_by_node_direction_and_name, PortView, RegistryState,
    RegistryView,
};
use crate::parse::{characters, has_prefix, starts_with};
use crate::text::{decimal, decimal_text};
use vstd::prelude::*;
use vstd::string::*;

verus! {

/// Why the graph could not be built, activated or taken down.
#[derive(Clone, Debug, Eq, PartialEq)]
pub enum GraphError {
    InvalidEndpointContract,
    PipeWire(String),
    RoundtripTimeout,
    MissingNode(String),
    MissingPort { node_id: u32, direction: String, name: String },
    DriverMismatch { node: String, expected: u32, actual: Option<u32> },
    EndpointCount(usize),
    InvalidFilterPort(String),
    CallbackDidNotQuiesce,
    AttemptFault(ProcessFault),
}

/// What a graph failure holds.
pub enum GraphErrorView {
    InvalidEndpointContract,
    PipeWire(Seq<char>),
    RoundtripTimeout,
    MissingNode(Seq<char>),
    MissingPort { node_id: u32, direction: Seq<char>, name: Seq<char> },
    DriverMismatch { node: Seq<char>, expected: u32, actual: Option<u32> },
    EndpointCount(usize),
    InvalidFilterPort(Seq<char>),
    CallbackDidNotQuiesce,
    AttemptFault(ProcessFault),
}

impl View for GraphError {
    type V = GraphErrorView;

    open spec fn view(&self) -> GraphErrorView {
        match *self {
            GraphError::InvalidEndpointContract => GraphErrorView::InvalidEndpointContract,
            GraphError::PipeWire(error) => GraphErrorView::PipeWire(error@),
            GraphError::RoundtripTimeout => GraphErrorView::RoundtripTimeout,
            GraphError::MissingNode(name) => GraphErrorView::MissingNode(name@),
            GraphError::MissingPort { node_id, direction, name } => GraphErrorView::MissingPort {
                node_id,
                direction: direction@,
                name: name@,
            },
            GraphError::DriverMismatch { node, expected, actual } =>
                GraphErrorView::DriverMismatch { node: node@, expected, actual },
            GraphError::EndpointCount(count) => GraphErrorView::EndpointCount(count),
            GraphError::InvalidFilterPort(name) => GraphErrorView::InvalidFilterPort(name@),
            GraphError::CallbackDidNotQuiesce => GraphErrorView::CallbackDidNotQuiesce,
            GraphError::AttemptFault(fault) => GraphErrorView::AttemptFault(fault),
        }
    }
}

/// The name of a fault in failure texts.
pub open spec fn fault_name(fault: ProcessFault) -> Seq<char> {
    match fault {
        ProcessFault::MissingBuffer => "MissingBuffer"@,
        ProcessFault::InvalidQuantum => "InvalidQuantum"@,
        ProcessFault::RateChanged => "RateChanged"@,
        ProcessFault::DriverChanged => "DriverChanged"@,
        ProcessFault::PositionDiscontinuity => "PositionDiscontinuity"@,
        ProcessFault::AliasedBuffer => "AliasedBuffer"@,
        ProcessFault::MisalignedBuffer => "MisalignedBuffer"@,
        ProcessFault::Processor => "Processor"@,
        ProcessFault::Panic => "Panic"@,
        ProcessFault::Pause => "Pause"@,
        ProcessFault::StaleSystemTail => "StaleSystemTail"@,
        ProcessFault::SystemPriming => "SystemPriming"@,
        ProcessFault::SystemDrain => "SystemDrain"@,
        ProcessFault::SystemLatency => "SystemLatency"@,
        ProcessFault::BufferExtentOverflow => "BufferExtentOverflow"@,
        ProcessFault::FilterError => "FilterError"@,
        ProcessFault::UnexpectedFilterState => "UnexpectedFilterState"@,
    }
}

fn fault_text(fault: ProcessFault) -> (text: &'static str)
    ensures
        text@ == fault_name(fault),
{
    match fault {
        ProcessFault::MissingBuffer => "MissingBuffer",
        ProcessFault::InvalidQuantum => "InvalidQuantum",
        ProcessFault::RateChanged => "RateChanged",
        ProcessFault::DriverChanged => "DriverChanged",
        ProcessFault::PositionDiscontinuity => "PositionDiscontinuity",
        ProcessFault::AliasedBuffer => "AliasedBuffer",
        ProcessFault::MisalignedBuffer => "MisalignedBuffer",
        ProcessFault::Processor => "Processor",
        ProcessFault::Panic => "Panic",
        ProcessFault::Pause => "Pause",
        ProcessFault::StaleSystemTail => "StaleSystemTail",
        ProcessFault::SystemPriming => "SystemPriming",
        ProcessFault::SystemDrain => "SystemDrain",
        ProcessFault::SystemLatency => "SystemLatency",
        ProcessFault::BufferExtentOverflow => "BufferExtentOverflow",
        ProcessFault::FilterError => "FilterError",
        ProcessFault::UnexpectedFilterState => "UnexpectedFilterState",
    }
}

/// The text of an optional driver.
pub open spec fn driver_name(driver: Option<u32>) -> Seq<char> {
    match driver {
        Some(id) => "Some("@ + decimal(id as nat) + ")"@,
        None => "None"@,
    }
}

impl GraphErrorView {
    /// The text of this error.
    pub open spec fn text(self) -> Seq<char> {
        match self {
            GraphErrorView::InvalidEndpointContract => "invalid PipeWire endpoint contract"@,
            GraphErrorView::PipeWire(error) => error,
            GraphErrorView::RoundtripTimeout => "PipeWire roundtrip timed out"@,
            GraphErrorView::MissingNode(name) => "PipeWire node "@ + name + " did not appear"@,
            GraphErrorView::MissingPort { node_id, direction, name } => "PipeWire node "@ + decimal(
                node_id as nat,
            ) + " has no "@ + direction + " port named "@ + name,
            GraphErrorView::DriverMismatch { node, expected, actual } => "PipeWire node "@ + node
                + " has driver "@ + driver_name(actual) + ", expected "@ + decimal(expected as nat),
            GraphErrorView::EndpointCount(count) => "PipeWire exposed "@ + decimal(count as nat)
                + " LibreWave audio endpoints, expected 4"@,
            GraphErrorView::InvalidFilterPort(name) => "PipeWire filter port "@ + name
                + " has an invalid DSP contract"@,
            GraphErrorView::CallbackDidNotQuiesce => "PipeWire filter callback did not quiesce"@,
            GraphErrorView::AttemptFault(fault) => "PipeWire graph attempt faulted: "@
                + fault_name(fault),
        }
    }
}

impl GraphError {
    /// Describes this error to a person.
    pub fn message(&self) -> (message: String)
        ensures
            message@ == self@.text(),
    {
        match self {
            GraphError::InvalidEndpointContract => String::from_str(
                "invalid PipeWire endpoint contract",
            ),
            GraphError::PipeWire(error) => error.clone(),
            GraphError::RoundtripTimeout => String::from_str("PipeWire roundtrip timed out"),
            GraphError::MissingNode(name) => {
                let mut message = String::from_str("PipeWire node ");
                message.append(name.as_str());
                message.append(" did not appear");
                message
            },
            GraphError::MissingPort { node_id, direction, name } => {
                let mut message = String::from_str("PipeWire node ");
                message.append(decimal_text(*node_id as u64).as_str());
                message.append(" has no ");
                message.append(direction.as_str());
                message.append(" port named ");
                message.append(name.as_str());
                message
            },
            GraphError::DriverMismatch { node, expected, actual } => {
                let mut message = String::from_str("PipeWire node ");
                message.append(node.as_str());
                message.append(" has driver ");
                let driver = match actual {
                    Some(id) => {
                        let mut driver = String::from_str("Some(");
                        driver.append(decimal_text(*id as u64).as_str());
                        driver.append(")");
                        driver
                    },
                    None => String::from_str("None"),
                };
                message.append(driver.as_str());
                message.append(", expected ");
                message.append(decimal_text(*expected as u64).as_str());
                message
            },
            GraphError::EndpointCount(count) => {
                let mut message = String::from_str("PipeWire exposed ");
                message.append(decimal_text(*count as u64).as_str());
                message.append(" LibreWave audio endpoints, expected 4");
                message
            },
            GraphError::InvalidFilterPort(name) => {
                let mut message = String::from_str("PipeWire filter port ");
                message.append(name.as_str());
                message.append(" has an invalid DSP contract");
                message
            },
            GraphError::CallbackDidNotQuiesce => String::from_str(
                "PipeWire filter callback did not quiesce",
            ),
            GraphError::AttemptFault(fault) => {
                let mut message = String::from_str("PipeWire graph attempt faulted: ");
                message.append(fault_text(*fault));
                message
            },
        }
    }

    /// Copies this error.
    pub fn copied(&self) -> (copy: GraphError)
        ensures
            copy@ == self@,
    {
        match self {
            GraphError::InvalidEndpointContract => GraphError::InvalidEndpointContract,
            GraphError::PipeWire(error) => GraphError::PipeWire(error.clone()),
            GraphError::RoundtripTimeout => GraphError::RoundtripTimeout,
            GraphError::MissingNode(name) => GraphError::MissingNode(name.clone()),
            GraphError::MissingPort { node_id, direction, name } => GraphError::MissingPort {
                node_id: *node_id,
                direction: direction.clone(),
                name: name.clone(),
            },
            GraphError::DriverMismatch { node, expected, actual } => GraphError::DriverMismatch {
                node: node.clone(),
                expected: *expected,
                actual: *actual,
            },
            GraphError::EndpointCount(count) => GraphError::EndpointCount(*count),
            GraphError::InvalidFilterPort(name) => GraphError::InvalidFilterPort(name.clone()),
            GraphError::CallbackDidNotQuiesce => GraphError::CallbackDidNotQuiesce,
            GraphError::AttemptFault(fault) => GraphError::AttemptFault(*fault),
        }
    }
}

/// What a teardown result holds.
pub open spec fn result_view(result: Result<(), GraphError>) -> Result<(), GraphErrorView> {
    match result {
        Ok(()) => Ok(()),
        Err(error) => Err(error@),
    }
}

fn copy_result(result: &Result<(), GraphError>) -> (copy: Result<(), GraphError>)
    ensures
        result_view(copy) == result_view(*result),
{
    match result {
        Ok(()) => Ok(()),
        Err(error) => Err(error.copied()),
    }
}

/// Keeps the result of the first teardown for every later one.
#[derive(Debug)]
pub struct TeardownState {
    pub terminal: Option<Result<(), GraphError>>,
}

impl Default for TeardownState {
    fn default() -> (state: Self)
        ensures
            state.terminal is None,
    {
        TeardownState { terminal: None }
    }
}

impl TeardownState {
    /// The result of the finished teardown, if there is one.
    pub open spec fn settled(self) -> Option<Result<(), GraphErrorView>> {
        match self.terminal {
            Some(result) => Some(result_view(result)),
            None => None,
        }
    }

    /// Returns the result of the finished teardown, if there is one.
    pub fn terminal(&self) -> (result: Option<Result<(), GraphError>>)
        ensures
            match result {
                Some(result) => self.settled() == Some(result_view(result)),
                None => self.settled() is None,
            },
    {
        match &self.terminal {
            Some(result) => Some(copy_result(result)),
            None => None,
        }
    }

    /// Finishes the teardown; the first result stands.
    pub fn finish(&mut self, result: Result<(), GraphError>) -> (outcome: Result<(), GraphError>)
        ensures
            final(self).settled() == Some(
                match old(self).settled() {
                    Some(first) => first,
                    None => result_view(result),
                },
            ),
            final(self).settled() == Some(result_view(outcome)),
    {
        if let Some(terminal) = self.terminal() {
            return terminal;
        }
        self.terminal = Some(copy_result(&result));
        result
    }
}

/// Notes the outcome of one teardown step; the first failure stands.
pub fn note_failure(first: &mut Option<GraphError>, outcome: Result<(), GraphError>)
    ensures
        *final(first) == match *old(first) {
            Some(error) => Some(error),
            None => match outcome {
                Ok(()) => None,
                Err(error) => Some(error),
            },
        },
{
    if first.is_none() {
        if let Err(error) = outcome {
            *first = Some(error);
        }
    }
}

/// A finished teardown never changes its result.
pub proof fn law_teardown_result_is_terminal(
    before: TeardownState,
    after: TeardownState,
    result: Result<(), GraphError>,
)
    requires
        before.settled() is Some,
        after.settled() == Some(
            match before.settled() {
                Some(first) => first,
                None => result_view(result),
            },
        ),
    ensures
        after.settled() == before.settled(),
{
}

/// Whether plans are the four deliberate endpoints in order, the first an input
/// and the others outputs.
pub open spec fn exact_endpoints(plans: Seq<EndpointPlan>) -> bool {
    &&& plans.len() == 4
    &&& forall|i: int| 0 <= i < 4 ==> (#[trigger] plans[i]).endpoint == deliberate()[i]
    &&& plans[0].direction == PipeWireEndpointDirection::Input
    &&& forall|i: int|
        1 <= i < 4 ==> (#[trigger] plans[i]).direction == PipeWireEndpointDirection::Output
}

/// Checks that plans are the exact endpoint contract.
pub fn validate_endpoints(plans: &[EndpointPlan]) -> (result: Result<(), GraphError>)
    ensures
        match result {
            Ok(()) => exact_endpoints(plans@),
            Err(error) => !exact_endpoints(plans@) && error == GraphError::InvalidEndpointContract,
        },
{
    if plans.len() != 4 {
        return Err(GraphError::InvalidEndpointContract);
    }
    if plans[0].endpoint != EndpointId::System || plans[1].endpoint != EndpointId::Microphone
        || plans[2].endpoint != EndpointId::MonitorMix || plans[3].endpoint
        != EndpointId::StreamMix {
        proof {
            assert(deliberate()[0] == EndpointId::System);
            assert(deliberate()[1] == EndpointId::Microphone);
            assert(deliberate()[2] == EndpointId::MonitorMix);
            assert(deliberate()[3] == EndpointId::StreamMix);
        }
        return Err(GraphError::InvalidEndpointContract);
    }
    if plans[0].direction != PipeWireEndpointDirection::Input || plans[1].direction
        != PipeWireEndpointDirection::Output || plans[2].direction
        != PipeWireEndpointDirection::Output || plans[3].direction
        != PipeWireEndpointDirection::Output {
        return Err(GraphError::InvalidEndpointContract);
    }
    Ok(())
}

/// The node name of the mixer filter.
pub fn filter_node_name() -> (name: &'static str)
    ensures
        name@ == "librewave.internal.mixer"@,
{
    "librewave.internal.mixer"
}

/// The name of the filter port at `index`.
pub open spec fn filter_port_name(index: int) -> Seq<char> {
    if index == 0 {
        "system_FL"@
    } else if index == 1 {
        "system_FR"@
    } else if index == 2 {
        "microphone_FL"@
    } else if index == 3 {
        "microphone_FR"@
    } else if index == 4 {
        "monitor_FL"@
    } else if index == 5 {
        "monitor_FR"@
    } else if index == 6 {
        "stream_FL"@
    } else {
        "stream_FR"@
    }
}

/// The channel of the filter port at `index`.
pub open spec fn filter_port_channel(index: int) -> Seq<char> {
    if index % 2 == 0 {
        "FL"@
    } else {
        "FR"@
    }
}

/// The direction of the filter port at `index`.
pub open spec fn filter_port_direction(index: int) -> Seq<char> {
    if index < 2 {
        "in"@
    } else {
        "out"@
    }
}

/// Lists the filter's ports: index, whether it is an output, name and channel.
pub fn filter_ports() -> (ports: [(usize, bool, &'static str, &'static str); 8])
    ensures
        forall|i: int|
            0 <= i < 8 ==> {
                let port = #[trigger] ports@[i];
                port.0 == i && port.1 == (i >= 2) && port.2@ == filter_port_name(i) && port.3@
                    == filter_port_channel(i)
            },
{
    [
        (0, false, "system_FL", "FL"),
        (1, false, "system_FR", "FR"),
        (2, true, "microphone_FL", "FL"),
        (3, true, "microphone_FR", "FR"),
        (4, true, "monitor_FL", "FL"),
        (5, true, "monitor_FR", "FR"),
        (6, true, "stream_FL", "FL"),
        (7, true, "stream_FR", "FR"),
    ]
}

/// Whether the filter has its port at `index` with the fixed channel and format.
pub open spec fn filter_port_exact(ports: Seq<PortView>, filter_id: u32, index: int) -> bool {
    match find_port(ports, filter_id, filter_port_direction(index), filter_port_name(index)) {
        Some(port) => port.channel == Some(filter_port_channel(index)) && port.format_dsp == Some(
            "32 bit float mono audio"@,
        ),
        None => false,
    }
}

/// The number of ports of a node.
pub open spec fn port_count(ports: Seq<PortView>, node_id: u32) -> nat
    decreases ports.len(),
{
    if ports.len() == 0 {
        0
    } else {
        port_count(ports.drop_last(), node_id) + if ports.last().node_id == node_id {
            1nat
        } else {
            0
        }
    }
}

fn is_exactly(text: &Option<String>, wanted: &str) -> (result: bool)
    ensures
        result == (crate::device::optional_text(*text) == Some(wanted@)),
{
    match text {
        Some(text) => {
            let wanted = String::from_str(wanted);
            *text == wanted
        },
        None => false,
    }
}

/// Whether the filter has exactly its eight ports.
pub open spec fn filter_complete(ports: Seq<PortView>, filter_id: u32) -> bool {
    &&& forall|i: int| 0 <= i < 8 ==> #[trigger] filter_port_exact(ports, filter_id, i)
    &&& port_count(ports, filter_id) == 8
}

/// Whether `error` names the first port that the filter lacks, or its wrong
/// number of ports.
pub open spec fn filter_incomplete(ports: Seq<PortView>, filter_id: u32, error: GraphErrorView)
    -> bool {
    ||| exists|i: int|
        {
            &&& 0 <= i < 8
            &&& !(#[trigger] filter_port_exact(ports, filter_id, i))
            &&& error == GraphErrorView::InvalidFilterPort(filter_port_name(i))
            &&& forall|j: int| 0 <= j < i ==> #[trigger] filter_port_exact(ports, filter_id, j)
        }
    ||| {
        &&& forall|i: int| 0 <= i < 8 ==> #[trigger] filter_port_exact(ports, filter_id, i)
        &&& port_count(ports, filter_id) != 8
        &&& error == GraphErrorView::InvalidFilterPort("port-count"@)
    }
}

/// Checks that the filter has exactly its eight ports.
pub fn validate_filter_ports(state: &RegistryState, filter_id: u32) -> (result: Result<
    (),
    GraphError,
>)
    ensures
        match result {
            Ok(()) => filter_complete(state@.ports, filter_id),
            Err(error) => filter_incomplete(state@.ports, filter_id, error@),
        },
{
    let wanted = filter_ports();
    for index in 0..8usize
        invariant
            forall|i: int|
                0 <= i < 8 ==> {
                    let port = #[trigger] wanted@[i];
                    port.0 == i && port.1 == (i >= 2) && port.2@ == filter_port_name(i) && port.3@
                        == filter_port_channel(i)
                },
            forall|j: int|
                0 <= j < index ==> #[trigger] filter_port_exact(state@.ports, filter_id, j),
    {
        let (_, output, name, channel) = wanted[index];
        let direction = if output {
            "out"
        } else {
            "in"
        };
        let exact = match state.find(filter_id, direction, name) {
            Some(port) => is_exactly(&port.channel, channel) && is_exactly(
                &port.format_dsp,
                "32 bit float mono audio",
            ),
            None => false,
        };
        if !exact {
            proof {
                assert(!filter_port_exact(state@.ports, filter_id, index as int));
            }
            return Err(GraphError::InvalidFilterPort(String::from_str(name)));
        }
        proof {
            assert(filter_port_exact(state@.ports, filter_id, index as int));
        }
    }
    let ghost all = state@.ports;
    let mut count: usize = 0;
    proof {
        assert(all.take(0) =~= Seq::<PortView>::empty());
    }
    for index in 0..state.ports.len()
        invariant
            all == state@.ports,
            count <= index,
            count == port_count(all.take(index as int), filter_id),
    {
        proof {
            let prefix = all.take(index + 1);
            assert(prefix.drop_last() =~= all.take(index as int));
            assert(prefix.last() == state.ports@[index as int]@);
        }
        if state.ports[index].node_id == filter_id {
            count = count + 1;
        }
    }
    proof {
        assert(all.take(state.ports@.len() as int) =~= all);
    }
    if count != 8 {
        return Err(GraphError::InvalidFilterPort(String::from_str("port-count")));
    }
    Ok(())
}

/// The five nodes of the graph.
#[derive(Clone, Copy, Debug, Eq, PartialEq, Structural)]
pub struct GraphNodes {
    pub system: u32,
    pub microphone: u32,
    pub monitor: u32,
    pub stream: u32,
    pub filter: u32,
}

/// One end of an internal link.
pub struct LinkEnd {
    pub node_id: u32,
    pub direction: Seq<char>,
    pub name: Seq<char>,
}

/// The playback port of an adapter at `index`.
pub open spec fn playback_name(index: int) -> Seq<char> {
    if index % 2 == 0 {
        "playback_FL"@
    } else {
        "playback_FR"@
    }
}

/// The output end of the internal link at `index`: the System monitor feeds the
/// filter, and the filter feeds the three other endpoints.
pub open spec fn link_output(nodes: GraphNodes, index: int) -> LinkEnd {
    if index == 0 {
        LinkEnd { node_id: nodes.system, direction: "out"@, name: "monitor_FL"@ }
    } else if index == 1 {
        LinkEnd { node_id: nodes.system, direction: "out"@, name: "monitor_FR"@ }
    } else {
        LinkEnd { node_id: nodes.filter, direction: "out"@, name: filter_port_name(index) }
    }
}

/// The input end of the internal link at `index`.
pub open spec fn link_input(nodes: GraphNodes, index: int) -> LinkEnd {
    if index < 2 {
        LinkEnd { node_id: nodes.filter, direction: "in"@, name: filter_port_name(index) }
    } else if index < 4 {
        LinkEnd { node_id: nodes.microphone, direction: "in"@, name: playback_name(index) }
    } else if index < 6 {
        LinkEnd { node_id: nodes.monitor, direction: "in"@, name: playback_name(index) }
    } else {
        LinkEnd { node_id: nodes.stream, direction: "in"@, name: playback_name(index) }
    }
}

/// The port at one end of a link, if it was seen.
pub open spec fn end_port(ports: Seq<PortView>, end: LinkEnd) -> Option<u32> {
    match find_port(ports, end.node_id, end.direction, end.name) {
        Some(port) => Some(port.id),
        None => None,
    }
}

/// The failure of a missing end.
pub open spec fn missing_end(end: LinkEnd) -> GraphErrorView {
    GraphErrorView::MissingPort {
        node_id: end.node_id,
        direction: end.direction,
        name: end.name,
    }
}

/// Whether both ends of the link at `index` were seen.
pub open spec fn link_found(ports: Seq<PortView>, nodes: GraphNodes, index: int) -> bool {
    end_port(ports, link_output(nodes, index)) is Some && end_port(
        ports,
        link_input(nodes, index),
    ) is Some
}

/// Whether `error` names the first end of an internal link that was not seen.
pub open spec fn link_missing(ports: Seq<PortView>, nodes: GraphNodes, error: GraphErrorView)
    -> bool {
    exists|i: int|
        {
            &&& 0 <= i < 8
            &&& !(#[trigger] link_found(ports, nodes, i))
            &&& forall|j: int| 0 <= j < i ==> #[trigger] link_found(ports, nodes, j)
            &&& error == if end_port(ports, link_output(nodes, i)) is None {
                missing_end(link_output(nodes, i))
            } else {
                missing_end(link_input(nodes, i))
            }
        }
}

fn resolve_link(state: &RegistryState, nodes: GraphNodes, index: usize) -> (result: Result<
    (u32, u32),
    GraphError,
>)
    requires
        index < 8,
    ensures
        match result {
            Ok((output, input)) => end_port(state@.ports, link_output(nodes, index as int)) == Some(
                output,
            ) && end_port(state@.ports, link_input(nodes, index as int)) == Some(input),
            Err(error) => if end_port(state@.ports, link_output(nodes, index as int)) is None {
                error@ == missing_end(link_output(nodes, index as int))
            } else {
                end_port(state@.ports, link_input(nodes, index as int)) is None && error@
                    == missing_end(link_input(nodes, index as int))
            },
        },
{
    let names = filter_ports();
    let filter_name: &'static str = names[index].2;
    proof {
        assert(names@[index as int].2@ == filter_port_name(index as int));
    }
    let left = index % 2 == 0;
    let playback: &'static str = if left {
        "playback_FL"
    } else {
        "playback_FR"
    };
    if index < 2 {
        let monitor: &'static str = if left {
            "monitor_FL"
        } else {
            "monitor_FR"
        };
        let output: u32 = state.port_id(nodes.system, "out", monitor)?;
        let input: u32 = state.port_id(nodes.filter, "in", filter_name)?;
        return Ok((output, input));
    }
    let output: u32 = state.port_id(nodes.filter, "out", filter_name)?;
    let adapter: u32 = if index < 4 {
        nodes.microphone
    } else if index < 6 {
        nodes.monitor
    } else {
        nodes.stream
    };
    let input: u32 = state.port_id(adapter, "in", playback)?;
    Ok((output, input))
}

/// Resolves the eight internal links, each as its output and input port.
pub fn internal_ports(state: &RegistryState, nodes: GraphNodes) -> (result: Result<
    Vec<(u32, u32)>,
    GraphError,
>)
    ensures
        match result {
            Ok(links) => links@.len() == 8 && forall|i: int|
                0 <= i < 8 ==> end_port(state@.ports, link_output(nodes, i)) == Some(
                    (#[trigger] links@[i]).0,
                ) && end_port(state@.ports, link_input(nodes, i)) == Some(links@[i].1),
            Err(error) => link_missing(state@.ports, nodes, error@),
        },
{
    let mut links: Vec<(u32, u32)> = Vec::new();
    for index in 0..8usize
        invariant
            links@.len() == index,
            forall|i: int|
                0 <= i < index ==> end_port(state@.ports, link_output(nodes, i)) == Some(
                    (#[trigger] links@[i]).0,
                ) && end_port(state@.ports, link_input(nodes, i)) == Some(links@[i].1),
            forall|j: int| 0 <= j < index ==> #[trigger] link_found(state@.ports, nodes, j),
    {
        match resolve_link(state, nodes, index) {
            Ok(link) => {
                links.push(link);
                proof {
                    assert(link_found(state@.ports, nodes, index as int));
                }
            },
            Err(error) => {
                proof {
                    assert(!link_found(state@.ports, nodes, index as int));
                }
                return Err(error);
            },
        }
    }
    Ok(links)
}

/// The names of the five nodes, in order.
pub open spec fn node_names(plans: Seq<EndpointPlan>) -> Seq<Seq<char>> {
    seq![
        plans[0].node_name@,
        plans[1].node_name@,
        plans[2].node_name@,
        plans[3].node_name@,
        "librewave.internal.mixer"@,
    ]
}

/// Whether `nodes` are the five named nodes.
pub open spec fn resolves(state: RegistryView, plans: Seq<EndpointPlan>, nodes: GraphNodes) -> bool {
    let names = node_names(plans);
    &&& state.names.dom().contains(names[0]) && state.names[names[0]] == nodes.system
    &&& state.names.dom().contains(names[1]) && state.names[names[1]] == nodes.microphone
    &&& state.names.dom().contains(names[2]) && state.names[names[2]] == nodes.monitor
    &&& state.names.dom().contains(names[3]) && state.names[names[3]] == nodes.stream
    &&& state.names.dom().contains(names[4]) && state.names[names[4]] == nodes.filter
}

/// Whether `index` is the first of the five names that was not seen.
pub open spec fn first_unseen(state: RegistryView, plans: Seq<EndpointPlan>, index: int) -> bool {
    let names = node_names(plans);
    &&& 0 <= index < 5
    &&& !state.names.dom().contains(names[index])
    &&& forall|j: int| 0 <= j < index ==> state.names.dom().contains(#[trigger] names[j])
}

/// Finds the five nodes of the graph by their names.
pub fn graph_nodes(state: &RegistryState, plans: &[EndpointPlan]) -> (result: Result<
    GraphNodes,
    GraphError,
>)
    requires
        state.wf(),
        plans@.len() == 4,
    ensures
        match result {
            Ok(nodes) => resolves(state@, plans@, nodes),
            Err(error) => exists|i: int| #[trigger]
                first_unseen(state@, plans@, i) && error@ == GraphErrorView::MissingNode(
                    node_names(plans@)[i],
                ),
        },
{
    let ghost names = node_names(plans@);
    let system: u32 = match state.node_id(plans[0].node_name) {
        Ok(id) => id,
        Err(error) => {
            proof {
                assert(first_unseen(state@, plans@, 0));
            }
            return Err(error);
        },
    };
    let microphone: u32 = match state.node_id(plans[1].node_name) {
        Ok(id) => id,
        Err(error) => {
            proof {
                assert(first_unseen(state@, plans@, 1));
            }
            return Err(error);
        },
    };
    let monitor: u32 = match state.node_id(plans[2].node_name) {
        Ok(id) => id,
        Err(error) => {
            proof {
                assert(first_unseen(state@, plans@, 2));
            }
            return Err(error);
        },
    };
    let stream: u32 = match state.node_id(plans[3].node_name) {
        Ok(id) => id,
        Err(error) => {
            proof {
                assert(first_unseen(state@, plans@, 3));
            }
            return Err(error);
        },
    };
    let filter: u32 = match state.node_id(filter_node_name()) {
        Ok(id) => id,
        Err(error) => {
            proof {
                assert(first_unseen(state@, plans@, 4));
            }
            return Err(error);
        },
    };
    Ok(GraphNodes { system, microphone, monitor, stream, filter })
}

/// The five nodes that a graph driven by `system_id` links.
pub open spec fn planned_nodes(state: RegistryView, plans: Seq<EndpointPlan>, system_id: u32)
    -> GraphNodes {
    GraphNodes {
        system: system_id,
        microphone: state.names[plans[1].node_name@],
        monitor: state.names[plans[2].node_name@],
        stream: state.names[plans[3].node_name@],
        filter: state.names["librewave.internal.mixer"@],
    }
}

/// Whether everything that the internal links need was seen.
pub open spec fn plannable(
    state: RegistryView,
    plans: Seq<EndpointPlan>,
    system_id: u32,
    filter_node_id: Option<u32>,
) -> bool {
    let nodes = planned_nodes(state, plans, system_id);
    &&& state.names.dom().contains("librewave.internal.mixer"@)
    &&& filter_node_id == Some(nodes.filter)
    &&& filter_complete(state.ports, nodes.filter)
    &&& state.names.dom().contains(plans[1].node_name@)
    &&& state.names.dom().contains(plans[2].node_name@)
    &&& state.names.dom().contains(plans[3].node_name@)
    &&& forall|i: int| 0 <= i < 8 ==> #[trigger] link_found(state.ports, nodes, i)
    &&& find_port(state.ports, system_id, "in"@, "playback_FL"@) is Some
    &&& find_port(state.ports, system_id, "in"@, "playback_FR"@) is Some
}

/// Whether `error` names the first thing that the internal links lack: the
/// filter, its ports, an endpoint node, the end of a link, or a System playback
/// port.
pub open spec fn unplannable(
    state: RegistryView,
    plans: Seq<EndpointPlan>,
    system_id: u32,
    filter_node_id: Option<u32>,
    error: GraphErrorView,
) -> bool {
    let nodes = planned_nodes(state, plans, system_id);
    if !state.names.dom().contains("librewave.internal.mixer"@) || filter_node_id != Some(
        nodes.filter,
    ) {
        error == GraphErrorView::MissingNode("librewave.internal.mixer"@)
    } else if !filter_complete(state.ports, nodes.filter) {
        filter_incomplete(state.ports, nodes.filter, error)
    } else if !state.names.dom().contains(plans[1].node_name@) {
        error == GraphErrorView::MissingNode(plans[1].node_name@)
    } else if !state.names.dom().contains(plans[2].node_name@) {
        error == GraphErrorView::MissingNode(plans[2].node_name@)
    } else if !state.names.dom().contains(plans[3].node_name@) {
        error == GraphErrorView::MissingNode(plans[3].node_name@)
    } else if exists|i: int| 0 <= i < 8 && !(#[trigger] link_found(state.ports, nodes, i)) {
        link_missing(state.ports, nodes, error)
    } else if find_port(state.ports, system_id, "in"@, "playback_FL"@) is None {
        error == missing_end(
            LinkEnd { node_id: system_id, direction: "in"@, name: "playback_FL"@ },
        )
    } else {
        &&& find_port(state.ports, system_id, "in"@, "playback_FR"@) is None
        &&& error == missing_end(
            LinkEnd { node_id: system_id, direction: "in"@, name: "playback_FR"@ },
        )
    }
}

/// Plans the eight internal links of a constructed, inactive graph and fixes the
/// System playback ports.
///
/// `system_id` is the System node that drives the filter; `filter_node_id` is
/// the node number that the filter itself reports.
pub fn plan_links(
    state: &mut RegistryState,
    plans: &[EndpointPlan],
    system_id: u32,
    filter_node_id: Option<u32>,
) -> (result: Result<Vec<(u32, u32)>, GraphError>)
    requires
        old(state).wf(),
        plans@.len() == 4,
    ensures
        final(state).wf(),
        match result {
            Ok(links) => {
                let nodes = planned_nodes(old(state)@, plans@, system_id);
                let left = find_port(old(state)@.ports, system_id, "in"@, "playback_FL"@);
                let right = find_port(old(state)@.ports, system_id, "in"@, "playback_FR"@);
                &&& plannable(old(state)@, plans@, system_id, filter_node_id)
                &&& links@.len() == 8
                &&& forall|i: int|
                    0 <= i < 8 ==> end_port(old(state)@.ports, link_output(nodes, i)) == Some(
                        (#[trigger] links@[i]).0,
                    ) && end_port(old(state)@.ports, link_input(nodes, i)) == Some(links@[i].1)
                &&& final(state)@ == (RegistryView {
                    system_ports: Some((left->Some_0.id, right->Some_0.id)),
                    ..old(state)@
                }).published()
            },
            Err(error) => {
                &&& *final(state) == *old(state)
                &&& unplannable(old(state)@, plans@, system_id, filter_node_id, error@)
            },
        },
{
    let filter_name = filter_node_name();
    let filter: u32 = state.node_id(filter_name)?;
    let reported = match filter_node_id {
        Some(id) => id == filter,
        None => false,
    };
    if !reported {
        return Err(GraphError::MissingNode(String::from_str(filter_name)));
    }
    validate_filter_ports(state, filter)?;
    let microphone: u32 = state.node_id(plans[1].node_name)?;
    let monitor: u32 = state.node_id(plans[2].node_name)?;
    let stream: u32 = state.node_id(plans[3].node_name)?;
    let nodes = GraphNodes { system: system_id, microphone, monitor, stream, filter };
    let links = internal_ports(state, nodes)?;
    proof {
        assert forall|i: int| 0 <= i < 8 implies #[trigger] link_found(state@.ports, nodes, i) by {
            assert(end_port(state@.ports, link_output(nodes, i)) == Some(links@[i].0));
        }
    }
    let left: u32 = state.port_id(system_id, "in", "playback_FL")?;
    let right: u32 = state.port_id(system_id, "in", "playback_FR")?;
    state.set_system_playback_ports(left, right);
    Ok(links)
}

/// Whether a named node is a public audio endpoint of this product.
pub open spec fn is_public_endpoint(state: RegistryView, name: Seq<char>) -> bool {
    &&& state.names.dom().contains(name)
    &&& starts_with(name, "librewave."@)
    &&& state.classes.dom().contains(state.names[name])
    &&& state.classes[state.names[name]] == "Audio/Sink"@ || state.classes[state.names[name]]
        == "Audio/Source"@
}

/// The public audio endpoints of this product.
pub open spec fn public_endpoints(state: RegistryView) -> Set<Seq<char>> {
    Set::new(|name: Seq<char>| is_public_endpoint(state, name))
}

/// Whether `name` is among the first `count` entries.
spec fn listed_before(names: NameMap, name: Seq<char>, count: int) -> bool {
    exists|i: int| 0 <= i < count && #[trigger] names.holds_at(name, i)
}

/// Checks that exactly four public audio endpoints of this product were seen.
pub fn validate_endpoint_count(state: &RegistryState) -> (result: Result<(), GraphError>)
    requires
        state.wf(),
    ensures
        public_endpoints(state@).finite(),
        match result {
            Ok(()) => public_endpoints(state@).len() == 4,
            Err(error) => public_endpoints(state@).len() != 4 && error@
                == GraphErrorView::EndpointCount(public_endpoints(state@).len() as usize),
        },
{
    let prefix = characters("librewave.");
    let sink = String::from_str("Audio/Sink");
    let source = String::from_str("Audio/Source");
    let mut count: usize = 0;
    let ghost mut found = Set::<Seq<char>>::empty();
    for index in 0..state.node_names.entries.len()
        invariant
            state.wf(),
            prefix@ == "librewave."@,
            sink@ == "Audio/Sink"@,
            source@ == "Audio/Source"@,
            count <= index,
            found.finite(),
            found.len() == count,
            forall|name: Seq<char>| #[trigger]
                found.contains(name) <==> is_public_endpoint(state@, name) && listed_before(
                    state.node_names,
                    name,
                    index as int,
                ),
    {
        let entry = &state.node_names.entries[index];
        let ghost name = entry.0@;
        proof {
            state.node_names.lemma_at(index as int);
            assert(state.node_names.holds_at(name, index as int));
        }
        let text = characters(entry.0.as_str());
        let public = if has_prefix(text.as_slice(), prefix.as_slice()) {
            match state.node_classes.get(entry.1) {
                Some(class) => {
                    let is_sink = *class == sink;
                    let is_source = *class == source;
                    is_sink || is_source
                },
                None => false,
            }
        } else {
            false
        };
        proof {
            assert(public == is_public_endpoint(state@, name));
            assert forall|other: Seq<char>| #[trigger]
                listed_before(state.node_names, other, index + 1) <==> (other == name
                || listed_before(state.node_names, other, index as int)) by {
                if listed_before(state.node_names, other, index + 1) {
                    let i = choose|i: int|
                        0 <= i < index + 1 && #[trigger] state.node_names.holds_at(other, i);
                    if i < index {
                        assert(state.node_names.holds_at(other, i));
                    }
                }
                if listed_before(state.node_names, other, index as int) {
                    let i = choose|i: int|
                        0 <= i < index && #[trigger] state.node_names.holds_at(other, i);
                    assert(state.node_names.holds_at(other, i));
                }
            }
            if found.contains(name) {
                let i = choose|i: int|
                    0 <= i < index && #[trigger] state.node_names.holds_at(name, i);
                assert(state.node_names.entries@[i].0@
                    == state.node_names.entries@[index as int].0@);
            }
        }
        if public {
            count = count + 1;
            proof {
                found = found.insert(name);
            }
        }
    }
    proof {
        assert forall|name: Seq<char>| found.contains(name) <==> public_endpoints(state@).contains(
            name,
        ) by {
            if is_public_endpoint(state@, name) {
                let i = choose|i: int| state.node_names.holds_at(name, i);
                assert(state.node_names.holds_at(name, i));
            }
        }
        assert(found =~= public_endpoints(state@));
    }
    if count == 4 {
        Ok(())
    } else {
        Err(GraphError::EndpointCount(count))
    }
}

/// The first recorded fault, if there is one.
pub open spec fn first_fault(faults: Seq<Option<FaultRecord>>) -> Option<ProcessFault>
    decreases faults.len(),
{
    if faults.len() == 0 {
        None
    } else {
        match faults[0] {
            Some(record) => Some(record.fault),
            None => first_fault(faults.drop_first()),
        }
    }
}

fn find_first_fault(faults: &Vec<Option<FaultRecord>>) -> (fault: Option<ProcessFault>)
    ensures
        fault == first_fault(faults@),
{
    proof {
        assert(faults@.skip(0) =~= faults@);
    }
    for index in 0..faults.len()
        invariant
            first_fault(faults@) == first_fault(faults@.skip(index as int)),
    {
        proof {
            assert(faults@.skip(index as int).drop_first() =~= faults@.skip(index + 1));
        }
        if let Some(record) = faults[index] {
            return Some(record.fault);
        }
    }
    None
}

/// What waiting for the filter to stream calls for.
#[derive(Debug)]
pub enum ActivationStep {
    /// The filter is processing.
    Streaming,
    /// Iterate the loop and look again.
    Wait,
    /// The activation failed.
    Failed(GraphError),
}

/// Decides what waiting for the filter to stream calls for.
pub fn activation_step(
    filter_state: i32,
    failed: bool,
    faults: &Vec<Option<FaultRecord>>,
    timed_out: bool,
) -> (step: ActivationStep)
    ensures
        match step {
            ActivationStep::Streaming => filter_state == 2,
            ActivationStep::Failed(error) => {
                &&& filter_state != 2
                &&& if failed {
                    error@ == GraphErrorView::AttemptFault(
                        match first_fault(faults@) {
                            Some(fault) => fault,
                            None => ProcessFault::Processor,
                        },
                    )
                } else {
                    timed_out && error@ == GraphErrorView::RoundtripTimeout
                }
            },
            ActivationStep::Wait => filter_state != 2 && !failed && !timed_out,
        },
{
    if filter_state == FILTER_STATE_STREAMING {
        return ActivationStep::Streaming;
    }
    if failed {
        let fault = match find_first_fault(faults) {
            Some(fault) => fault,
            None => ProcessFault::Processor,
        };
        return ActivationStep::Failed(GraphError::AttemptFault(fault));
    }
    if timed_out {
        return ActivationStep::Failed(GraphError::RoundtripTimeout);
    }
    ActivationStep::Wait
}

/// The outcome of one registry round trip that has ended.
pub fn roundtrip_outcome(error: Option<String>, done: bool) -> (result: Result<(), GraphError>)
    ensures
        match result {
            Ok(()) => error is None && done,
            Err(failure) => match error {
                Some(text) => failure@ == GraphErrorView::PipeWire(text@),
                None => !done && failure@ == GraphErrorView::RoundtripTimeout,
            },
        },
{
    if let Some(text) = error {
        return Err(GraphError::PipeWire(text));
    }
    if !done {
        return Err(GraphError::RoundtripTimeout);
    }
    Ok(())
}

/// The drivers that the four nodes behind the System endpoint reported; `None`
/// where a node reported none.
#[derive(Clone, Copy, Debug, Eq, PartialEq, Structural)]
pub struct ObservedDrivers {
    pub microphone: Option<u32>,
    pub monitor: Option<u32>,
    pub stream: Option<u32>,
    pub filter: Option<u32>,
}

impl ObservedDrivers {
    /// The driver that the node at `index` of the graph reported.
    pub open spec fn of(self, index: int) -> Option<u32> {
        if index == 1 {
            self.microphone
        } else if index == 2 {
            self.monitor
        } else if index == 3 {
            self.stream
        } else {
            self.filter
        }
    }
}

/// Why the nodes of the graph do not share the System endpoint as their driver, if
/// they do not: the first node behind it that another driver drives.
pub open spec fn driver_failure(
    nodes: GraphNodes,
    plans: Seq<EndpointPlan>,
    observed: ObservedDrivers,
    index: int,
) -> Option<GraphErrorView>
    decreases 5 - index,
{
    if index >= 5 {
        None
    } else if observed.of(index) != Some(nodes.system) {
        Some(
            GraphErrorView::DriverMismatch {
                node: node_names(plans)[index],
                expected: nodes.system,
                actual: observed.of(index),
            },
        )
    } else {
        driver_failure(nodes, plans, observed, index + 1)
    }
}

fn check_driver(name: &str, expected: u32, actual: Option<u32>) -> (result: Result<(), GraphError>)
    ensures
        match result {
            Ok(()) => actual == Some(expected),
            Err(error) => actual != Some(expected) && error@ == (GraphErrorView::DriverMismatch {
                node: name@,
                expected,
                actual,
            }),
        },
{
    let same = match actual {
        Some(driver) => driver == expected,
        None => false,
    };
    if same {
        Ok(())
    } else {
        Err(GraphError::DriverMismatch { node: String::from_str(name), expected, actual })
    }
}

/// Checks that the System endpoint drives all five nodes of the graph; the first
/// node that it does not drive is the failure.
pub fn validate_drivers(
    nodes: GraphNodes,
    plans: &[EndpointPlan],
    observed: ObservedDrivers,
) -> (result: Result<(), GraphError>)
    requires
        plans@.len() == 4,
    ensures
        match driver_failure(nodes, plans@, observed, 1) {
            Some(error) => result is Err && result->Err_0@ == error,
            None => result is Ok,
        },
{
    proof {
        reveal_with_fuel(driver_failure, 5);
    }
    check_driver(plans[1].node_name, nodes.system, observed.microphone)?;
    check_driver(plans[2].node_name, nodes.system, observed.monitor)?;
    check_driver(plans[3].node_name, nodes.system, observed.stream)?;
    check_driver(filter_node_name(), nodes.system, observed.filter)
}

/// The internal links carry each channel to its own side and each mix to its own
/// endpoint: System's monitor into the filter, and the filter's microphone, monitor
/// and stream outputs into the adapters of the same name, left to left and right to
/// right.
pub proof fn law_internal_links_keep_mixes_and_channels_apart(nodes: GraphNodes)
    ensures
        link_output(nodes, 0) == (LinkEnd {
            node_id: nodes.system,
            direction: "out"@,
            name: "monitor_FL"@,
        }),
        link_output(nodes, 1) == (LinkEnd {
            node_id: nodes.system,
            direction: "out"@,
            name: "monitor_FR"@,
        }),
        link_input(nodes, 0) == (LinkEnd {
            node_id: nodes.filter,
            direction: "in"@,
            name: "system_FL"@,
        }),
        link_input(nodes, 1) == (LinkEnd {
            node_id: nodes.filter,
            direction: "in"@,
            name: "system_FR"@,
        }),
        forall|i: int|
            2 <= i < 8 ==> (#[trigger] link_output(nodes, i)).node_id == nodes.filter
                && link_output(nodes, i).direction == "out"@,
        forall|i: int| 2 <= i < 8 ==> (#[trigger] link_input(nodes, i)).direction == "in"@,
        forall|i: int|
            2 <= i < 8 && i % 2 == 0 ==> (#[trigger] link_input(nodes, i)).name == "playback_FL"@,
        forall|i: int|
            2 <= i < 8 && i % 2 == 1 ==> (#[trigger] link_input(nodes, i)).name == "playback_FR"@,
        link_output(nodes, 2).name == "microphone_FL"@,
        link_output(nodes, 3).name == "microphone_FR"@,
        link_output(nodes, 4).name == "monitor_FL"@,
        link_output(nodes, 5).name == "monitor_FR"@,
        link_output(nodes, 6).name == "stream_FL"@,
        link_output(nodes, 7).name == "stream_FR"@,
        link_input(nodes, 2).node_id == nodes.microphone,
        link_input(nodes, 3).node_id == nodes.microphone,
        link_input(nodes, 4).node_id == nodes.monitor,
        link_input(nodes, 5).node_id == nodes.monitor,
        link_input(nodes, 6).node_id == nodes.stream,
        link_input(nodes, 7).node_id == nodes.stream,
{
}

/// A planned link joins the two ports that its ends name: one that was seen on the
/// output's node and one on the input's.
pub proof fn law_planned_links_join_seen_ports(ports: Seq<PortView>, end: LinkEnd, port: u32)
    requires
        end_port(ports, end) == Some(port),
    ensures
        exists|i: int|
            {
                &&& 0 <= i < ports.len()
                &&& (#[trigger] ports[i]).id == port
                &&& ports[i].node_id == end.node_id
                &&& ports[i].direction == end.direction
                &&& ports[i].name == end.name
            },
{
    law_ports_are_found_by_node_direction_and_name(ports, end.node_id, end.direction, end.name);
    let found = find_port(ports, end.node_id, end.direction, end.name)->Some_0;
    let i = choose|i: int|
        {
            &&& 0 <= i < ports.len()
            &&& #[trigger] ports[i] == found
            &&& found.node_id == end.node_id
            &&& found.direction == end.direction
            &&& found.name == end.name
            &&& forall|j: int|
                0 <= j < i ==> (#[trigger] ports[j]).node_id != end.node_id || ports[j].direction
                    != end.direction || ports[j].name != end.name
        };
    assert(ports[i].id == port);
}

/// The five nodes are the ones whose names the plans and the filter give, each in
/// its own place.
pub proof fn law_nodes_are_resolved_by_their_plans(
    state: RegistryView,
    plans: Seq<EndpointPlan>,
    nodes: GraphNodes,
    system_id: u32,
)
    requires
        plans.len() == 4,
    ensures
        resolves(state, plans, nodes) <==> {
            &&& state.names.dom().contains(plans[0].node_name@)
            &&& state.names.dom().contains(plans[1].node_name@)
            &&& state.names.dom().contains(plans[2].node_name@)
            &&& state.names.dom().contains(plans[3].node_name@)
            &&& state.names.dom().contains("librewave.internal.mixer"@)
            &&& nodes.system == state.names[plans[0].node_name@]
            &&& nodes.microphone == state.names[plans[1].node_name@]
            &&& nodes.monitor == state.names[plans[2].node_name@]
            &&& nodes.stream == state.names[plans[3].node_name@]
            &&& nodes.filter == state.names["librewave.internal.mixer"@]
        },
        planned_nodes(state, plans, system_id).system == system_id,
        planned_nodes(state, plans, system_id).microphone == state.names[plans[1].node_name@],
        planned_nodes(state, plans, system_id).monitor == state.names[plans[2].node_name@],
        planned_nodes(state, plans, system_id).stream == state.names[plans[3].node_name@],
        planned_nodes(state, plans, system_id).filter == state.names["librewave.internal.mixer"@],
{
}

/// The graph has one driver exactly if all four nodes behind System report System
/// as theirs; the failure names the first that does not, and its driver.
pub proof fn law_system_drives_every_node(
    nodes: GraphNodes,
    plans: Seq<EndpointPlan>,
    observed: ObservedDrivers,
)
    requires
        plans.len() == 4,
    ensures
        driver_failure(nodes, plans, observed, 1) is None <==> {
            &&& observed.microphone == Some(nodes.system)
            &&& observed.monitor == Some(nodes.system)
            &&& observed.stream == Some(nodes.system)
            &&& observed.filter == Some(nodes.system)
        },
        match driver_failure(nodes, plans, observed, 1) {
            Some(GraphErrorView::DriverMismatch { node, expected, actual }) => {
                &&& expected == nodes.system
                &&& actual != Some(nodes.system)
                &&& {
                    ||| node == plans[1].node_name@ && actual == observed.microphone
                    ||| node == plans[2].node_name@ && actual == observed.monitor
                    ||| node == plans[3].node_name@ && actual == observed.stream
                    ||| node == "librewave.internal.mixer"@ && actual == observed.filter
                }
            },
            Some(_) => false,
            None => true,
        },
        observed.microphone != Some(nodes.system) ==> driver_failure(nodes, plans, observed, 1)
            == Some(
            GraphErrorView::DriverMismatch {
                node: plans[1].node_name@,
                expected: nodes.system,
                actual: observed.microphone,
            },
        ),
{
    reveal_with_fuel(driver_failure, 6);
}

/// The plans are exactly the four endpoints in their order, System first and
/// taking frames in, the others giving them out.
pub proof fn law_exact_endpoints_are_in_order(plans: Seq<EndpointPlan>)
    ensures
        exact_endpoints(plans) <==> {
            &&& plans.len() == 4
            &&& plans[0].endpoint == EndpointId::System
            &&& plans[1].endpoint == EndpointId::Microphone
            &&& plans[2].endpoint == EndpointId::MonitorMix
            &&& plans[3].endpoint == EndpointId::StreamMix
            &&& plans[0].direction == PipeWireEndpointDirection::Input
            &&& plans[1].direction == PipeWireEndpointDirection::Output
            &&& plans[2].direction == PipeWireEndpointDirection::Output
            &&& plans[3].direction == PipeWireEndpointDirection::Output
        },
{
    assert(deliberate()[0] == EndpointId::System);
    assert(deliberate()[1] == EndpointId::Microphone);
    assert(deliberate()[2] == EndpointId::MonitorMix);
    assert(deliberate()[3] == EndpointId::StreamMix);
    if exact_endpoints(plans) {
        assert(plans[0].endpoint == deliberate()[0]);
        assert(plans[1].endpoint == deliberate()[1]);
        assert(plans[2].endpoint == deliberate()[2]);
        assert(plans[3].endpoint == deliberate()[3]);
    } else if plans.len() == 4 && plans[0].endpoint == EndpointId::System && plans[1].endpoint
        == EndpointId::Microphone && plans[2].endpoint == EndpointId::MonitorMix
        && plans[3].endpoint == EndpointId::StreamMix {
        assert forall|i: int| 0 <= i < 4 implies (#[trigger] plans[i]).endpoint
            == deliberate()[i] by {
            if i == 0 {
            } else if i == 1 {
            } else if i == 2 {
            } else {
                assert(i == 3);
            }
        }
        if plans[1].direction == PipeWireEndpointDirection::Output && plans[2].direction
            == PipeWireEndpointDirection::Output && plans[3].direction
            == PipeWireEndpointDirection::Output {
            assert forall|i: int| 1 <= i < 4 implies (#[trigger] plans[i]).direction
                == PipeWireEndpointDirection::Output by {
                if i == 1 {
                } else if i == 2 {
                } else {
                    assert(i == 3);
                }
            }
        }
    }
}

/// The filter has its two inputs first and its six outputs behind them, left and
/// right in turn.
pub proof fn law_filter_ports_come_in_pairs(index: int)
    requires
        0 <= index < 8,
    ensures
        filter_port_direction(index) == if index == 0 || index == 1 {
            "in"@
        } else {
            "out"@
        },
        filter_port_channel(index) == if index == 0 || index == 2 || index == 4 || index == 6 {
            "FL"@
        } else {
            "FR"@
        },
        filter_port_name(0) == "system_FL"@,
        filter_port_name(1) == "system_FR"@,
        filter_port_name(2) == "microphone_FL"@,
        filter_port_name(3) == "microphone_FR"@,
        filter_port_name(4) == "monitor_FL"@,
        filter_port_name(5) == "monitor_FR"@,
        filter_port_name(6) == "stream_FL"@,
        filter_port_name(7) == "stream_FR"@,
{
}

/// A named node counts as a public endpoint exactly if its name is this product's
/// and its class is that of a sink or a source.
pub proof fn law_public_endpoints_are_sinks_and_sources(state: RegistryView, name: Seq<char>)
    ensures
        public_endpoints(state).contains(name) <==> {
            &&& state.names.dom().contains(name)
            &&& starts_with(name, "librewave."@)
            &&& state.classes.dom().contains(state.names[name])
            &&& {
                ||| state.classes[state.names[name]] == "Audio/Sink"@
                ||| state.classes[state.names[name]] == "Audio/Source"@
            }
        },
{
}

/// The fault that is reported is the earliest one recorded.
pub proof fn law_first_fault_is_the_earliest(faults: Seq<Option<FaultRecord>>)
    ensures
        match first_fault(faults) {
            Some(fault) => exists|i: int|
                {
                    &&& 0 <= i < faults.len()
                    &&& (#[trigger] faults[i]) is Some
                    &&& faults[i]->Some_0.fault == fault
                    &&& forall|j: int| 0 <= j < i ==> (#[trigger] faults[j]) is None
                },
            None => forall|i: int| 0 <= i < faults.len() ==> (#[trigger] faults[i]) is None,
        },
    decreases faults.len(),
{
    if faults.len() > 0 {
        if faults[0] is None {
            let rest = faults.drop_first();
            law_first_fault_is_the_earliest(rest);
            match first_fault(rest) {
                Some(fault) => {
                    let k = choose|k: int|
                        {
                            &&& 0 <= k < rest.len()
                            &&& (#[trigger] rest[k]) is Some
                            &&& rest[k]->Some_0.fault == fault
                            &&& forall|j: int| 0 <= j < k ==> (#[trigger] rest[j]) is None
                        };
                    assert(faults[k + 1] == rest[k]);
                    assert forall|j: int| 0 <= j < k + 1 implies (#[trigger] faults[j]) is None by {
                        if j > 0 {
                            assert(rest[j - 1] == faults[j]);
                        }
                    }
                },
                None => {
                    assert forall|i: int| 0 <= i < faults.len() implies (
                    #[trigger] faults[i]) is None by {
                        if i > 0 {
                            assert(rest[i - 1] == faults[i]);
                        }
                    }
                },
            }
        } else {
            assert(faults[0] is Some);
        }
    }
}

/// The ports of a node are counted one by one, in whatever order they came.
pub proof fn law_ports_are_counted_by_node(ports: Seq<PortView>, port: PortView, node_id: u32)
    ensures
        port_count(Seq::<PortView>::empty(), node_id) == 0,
        port_count(ports.push(port), node_id) == port_count(ports, node_id) + if port.node_id
            == node_id {
            1int
        } else {
            0int
        },
{
    assert(ports.push(port).drop_last() =~= ports);
}

/// A port of the filter is as it should be exactly if the first port that was seen
/// under its node, direction and name has its channel and carries mono float
/// samples.
pub proof fn law_filter_ports_have_channel_and_format(
    ports: Seq<PortView>,
    filter_id: u32,
    index: int,
)
    ensures
        filter_port_exact(ports, filter_id, index) <==> {
            let found = find_port(
                ports,
                filter_id,
                filter_port_direction(index),
                filter_port_name(index),
            );
            &&& found is Some
            &&& found->Some_0.channel == Some(filter_port_channel(index))
            &&& found->Some_0.format_dsp == Some("32 bit float mono audio"@)
        },
{
}

/// An incomplete filter is reported by its first port that is not as it should be,
/// or by the count where there are more ports than these eight.
pub proof fn law_incomplete_filter_names_its_first_port(
    ports: Seq<PortView>,
    filter_id: u32,
    error: GraphErrorView,
    index: int,
)
    requires
        filter_incomplete(ports, filter_id, error),
        0 <= index < 8,
        !filter_port_exact(ports, filter_id, index),
        forall|j: int| 0 <= j < index ==> #[trigger] filter_port_exact(ports, filter_id, j),
    ensures
        error == GraphErrorView::InvalidFilterPort(filter_port_name(index)),
        !filter_complete(ports, filter_id),
{
    let i = choose|i: int|
        {
            &&& 0 <= i < 8
            &&& !(#[trigger] filter_port_exact(ports, filter_id, i))
            &&& error == GraphErrorView::InvalidFilterPort(filter_port_name(i))
            &&& forall|j: int| 0 <= j < i ==> #[trigger] filter_port_exact(ports, filter_id, j)
        };
    assert(filter_port_exact(ports, filter_id, i) == filter_port_exact(ports, filter_id, index)
        || i != index);
    if i < index {
        assert(filter_port_exact(ports, filter_id, i));
    }
    if index < i {
        assert(filter_port_exact(ports, filter_id, index));
    }
}

/// A link that cannot be made is reported by its missing end, the output before
/// the input, and the first such link counts.
pub proof fn law_missing_links_name_their_first_end(
    ports: Seq<PortView>,
    nodes: GraphNodes,
    error: GraphErrorView,
    index: int,
)
    requires
        link_missing(ports, nodes, error),
        0 <= index < 8,
        !link_found(ports, nodes, index),
        forall|j: int| 0 <= j < index ==> #[trigger] link_found(ports, nodes, j),
    ensures
        end_port(ports, link_output(nodes, index)) is None || end_port(
            ports,
            link_input(nodes, index),
        ) is None,
        end_port(ports, link_output(nodes, index)) is None ==> error
            == (GraphErrorView::MissingPort {
            node_id: link_output(nodes, index).node_id,
            direction: link_output(nodes, index).direction,
            name: link_output(nodes, index).name,
        }),
        end_port(ports, link_output(nodes, index)) is Some ==> error
            == (GraphErrorView::MissingPort {
            node_id: link_input(nodes, index).node_id,
            direction: link_input(nodes, index).direction,
            name: link_input(nodes, index).name,
        }),
{
    let i = choose|i: int|
        {
            &&& 0 <= i < 8
            &&& !(#[trigger] link_found(ports, nodes, i))
            &&& forall|j: int| 0 <= j < i ==> #[trigger] link_found(ports, nodes, j)
            &&& error == if end_port(ports, link_output(nodes, i)) is None {
                missing_end(link_output(nodes, i))
            } else {
                missing_end(link_input(nodes, i))
            }
        };
    if i < index {
        assert(link_found(ports, nodes, i));
    }
    if index < i {
        assert(link_found(ports, nodes, index));
    }
}

} // verus!
