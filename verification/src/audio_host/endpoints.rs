//! The deliberate public endpoints.

use crate::audio_host::host::LinuxAudioError;
use vstd::prelude::*;

verus! {

/// One deliberate public endpoint.
#[derive(Clone, Copy, Debug, Eq, PartialEq, Structural)]
pub enum EndpointId {
    System,
    Microphone,
    MonitorMix,
    StreamMix,
}

/// Which way frames flow through an endpoint.
#[derive(Clone, Copy, Debug, Eq, PartialEq, Structural)]
pub enum EndpointFlow {
    /// Applications render into the endpoint.
    PublicSink,
    /// Applications capture from the endpoint.
    PublicSource,
}

/// The endpoint allowlist, in publication order.
pub open spec fn deliberate() -> Seq<EndpointId> {
    seq![
        EndpointId::System,
        EndpointId::Microphone,
        EndpointId::MonitorMix,
        EndpointId::StreamMix,
    ]
}

/// Lists the endpoint allowlist, in publication order.
pub fn deliberate_endpoints() -> (endpoints: [EndpointId; 4])
    ensures
        endpoints@ == deliberate(),
{
    let endpoints = [
        EndpointId::System,
        EndpointId::Microphone,
        EndpointId::MonitorMix,
        EndpointId::StreamMix,
    ];
    proof {
        assert(endpoints@ =~= deliberate());
    }
    endpoints
}

impl EndpointId {
    /// Which way frames flow through this endpoint.
    pub open spec fn spec_flow(self) -> EndpointFlow {
        match self {
            EndpointId::System => EndpointFlow::PublicSink,
            _ => EndpointFlow::PublicSource,
        }
    }

    pub fn flow(self) -> (flow: EndpointFlow)
        ensures
            flow == self.spec_flow(),
    {
        match self {
            EndpointId::System => EndpointFlow::PublicSink,
            _ => EndpointFlow::PublicSource,
        }
    }

    /// The stable node name of this endpoint.
    pub open spec fn name(self) -> Seq<char> {
        match self {
            EndpointId::System => "librewave.system"@,
            EndpointId::Microphone => "librewave.microphone"@,
            EndpointId::MonitorMix => "librewave.monitor-mix"@,
            EndpointId::StreamMix => "librewave.stream-mix"@,
        }
    }

    /// The human-readable description of this endpoint.
    pub open spec fn description(self) -> Seq<char> {
        match self {
            EndpointId::System => "LibreWave System"@,
            EndpointId::Microphone => "LibreWave Microphone"@,
            EndpointId::MonitorMix => "LibreWave Monitor Mix"@,
            EndpointId::StreamMix => "LibreWave Stream Mix"@,
        }
    }
}

/// `PipeWire`'s direction for one deliberate endpoint.
#[derive(Clone, Copy, Debug, Eq, PartialEq, Structural)]
pub enum PipeWireEndpointDirection {
    /// The node receives frames rendered by applications.
    Input,
    /// The node produces frames for applications to capture.
    Output,
}

/// A complete, inspectable plan for one public `PipeWire` endpoint.
#[derive(Clone, Copy, Debug, Eq, PartialEq)]
pub struct EndpointPlan {
    /// Portable endpoint identity.
    pub endpoint: EndpointId,
    /// Direction derived from [`EndpointFlow`].
    pub direction: PipeWireEndpointDirection,
    /// Stable `PipeWire` node name.
    pub node_name: &'static str,
    /// Human-readable node description.
    pub node_description: &'static str,
    /// Explicit `PipeWire` media class.
    pub media_class: &'static str,
    /// Whether `node.virtual` is true.
    pub node_virtual: bool,
}

impl EndpointPlan {
    /// Whether this is the exact plan for `endpoint`.
    pub open spec fn plans(self, endpoint: EndpointId) -> bool {
        &&& self.endpoint == endpoint
        &&& self.direction == match endpoint.spec_flow() {
            EndpointFlow::PublicSink => PipeWireEndpointDirection::Input,
            EndpointFlow::PublicSource => PipeWireEndpointDirection::Output,
        }
        &&& self.node_name@ == endpoint.name()
        &&& self.node_description@ == endpoint.description()
        &&& self.media_class@ == match endpoint.spec_flow() {
            EndpointFlow::PublicSink => "Audio/Sink"@,
            EndpointFlow::PublicSource => "Audio/Source"@,
        }
        &&& self.node_virtual
    }
}

/// The first endpoint that repeats an earlier one, if one does.
pub open spec fn repeated(endpoints: Seq<EndpointId>) -> Option<EndpointId>
    decreases endpoints.len(),
{
    if endpoints.len() == 0 {
        None
    } else {
        match repeated(endpoints.drop_last()) {
            Some(endpoint) => Some(endpoint),
            None => if endpoints.drop_last().contains(endpoints.last()) {
                Some(endpoints.last())
            } else {
                None
            },
        }
    }
}

/// A repetition in the first endpoints is the first repetition of them all.
proof fn lemma_repeated_prefix(endpoints: Seq<EndpointId>, count: int)
    requires
        0 <= count <= endpoints.len(),
        repeated(endpoints.take(count)) is Some,
    ensures
        repeated(endpoints) == repeated(endpoints.take(count)),
    decreases endpoints.len(),
{
    if count == endpoints.len() {
        assert(endpoints.take(count) =~= endpoints);
    } else {
        assert(endpoints.drop_last().take(count) =~= endpoints.take(count));
        lemma_repeated_prefix(endpoints.drop_last(), count);
    }
}

/// Builds the plan for one endpoint.
pub fn endpoint_plan(endpoint: EndpointId) -> (plan: EndpointPlan)
    ensures
        plan.plans(endpoint),
{
    let direction = match endpoint.flow() {
        EndpointFlow::PublicSink => PipeWireEndpointDirection::Input,
        EndpointFlow::PublicSource => PipeWireEndpointDirection::Output,
    };
    let media_class = match endpoint.flow() {
        EndpointFlow::PublicSink => "Audio/Sink",
        EndpointFlow::PublicSource => "Audio/Source",
    };
    let node_name = match endpoint {
        EndpointId::System => "librewave.system",
        EndpointId::Microphone => "librewave.microphone",
        EndpointId::MonitorMix => "librewave.monitor-mix",
        EndpointId::StreamMix => "librewave.stream-mix",
    };
    let node_description = match endpoint {
        EndpointId::System => "LibreWave System",
        EndpointId::Microphone => "LibreWave Microphone",
        EndpointId::MonitorMix => "LibreWave Monitor Mix",
        EndpointId::StreamMix => "LibreWave Stream Mix",
    };
    EndpointPlan {
        endpoint,
        direction,
        node_name,
        node_description,
        media_class,
        node_virtual: true,
    }
}

/// Builds endpoint plans from the portable allowlist and flow contract. Every
/// endpoint there is belongs to the allowlist, so only a repetition is refused.
pub fn endpoint_plans(endpoints: &[EndpointId]) -> (result: Result<
    Vec<EndpointPlan>,
    LinuxAudioError,
>)
    ensures
        match repeated(endpoints@) {
            Some(endpoint) => result == Err::<Vec<EndpointPlan>, LinuxAudioError>(
                LinuxAudioError::DuplicateEndpoint(endpoint),
            ),
            None => {
                &&& result is Ok
                &&& result->Ok_0@.len() == endpoints@.len()
                &&& forall|i: int|
                    0 <= i < endpoints@.len() ==> (#[trigger] result->Ok_0@[i]).plans(endpoints@[i])
            },
        },
{
    let mut plans: Vec<EndpointPlan> = Vec::new();
    proof {
        assert(endpoints@.take(0) =~= Seq::<EndpointId>::empty());
    }
    for index in 0..endpoints.len()
        invariant
            plans@.len() == index,
            repeated(endpoints@.take(index as int)) is None,
            forall|i: int| 0 <= i < index ==> (#[trigger] plans@[i]).plans(endpoints@[i]),
    {
        let endpoint = endpoints[index];
        proof {
            let prefix = endpoints@.take(index + 1);
            assert(prefix.drop_last() =~= endpoints@.take(index as int));
            assert(prefix.last() == endpoint);
        }
        for earlier in 0..index
            invariant
                index < endpoints@.len(),
                plans@.len() == index,
                endpoint == endpoints@[index as int],
                repeated(endpoints@.take(index as int)) is None,
                endpoints@.take(index + 1).drop_last() == endpoints@.take(index as int),
                forall|i: int| 0 <= i < index ==> (#[trigger] plans@[i]).plans(endpoints@[i]),
                forall|i: int| 0 <= i < earlier ==> #[trigger] endpoints@[i] != endpoint,
        {
            if plans[earlier].endpoint == endpoint {
                proof {
                    assert(plans@[earlier as int].plans(endpoints@[earlier as int]));
                    assert(endpoints@.take(index as int)[earlier as int] == endpoint);
                    lemma_repeated_prefix(endpoints@, index + 1);
                }
                return Err(LinuxAudioError::DuplicateEndpoint(endpoint));
            }
            proof {
                assert(plans@[earlier as int].plans(endpoints@[earlier as int]));
            }
        }
        plans.push(endpoint_plan(endpoint));
    }
    proof {
        assert(endpoints@.take(endpoints@.len() as int) =~= endpoints@);
    }
    Ok(plans)
}

/// A request is refused exactly if it names an endpoint twice, and for the first
/// one that it repeats.
pub proof fn law_only_repeated_endpoints_are_refused(endpoints: Seq<EndpointId>)
    ensures
        repeated(endpoints) is None <==> forall|i: int, j: int|
            0 <= i < j < endpoints.len() ==> #[trigger] endpoints[i] != #[trigger] endpoints[j],
        match repeated(endpoints) {
            Some(endpoint) => exists|i: int, j: int|
                {
                    &&& 0 <= i < j < endpoints.len()
                    &&& #[trigger] endpoints[i] == endpoint
                    &&& #[trigger] endpoints[j] == endpoint
                    &&& forall|a: int, b: int|
                        0 <= a < b < j ==> #[trigger] endpoints[a] != #[trigger] endpoints[b]
                },
            None => true,
        },
    decreases endpoints.len(),
{
    if endpoints.len() > 0 {
        let start = endpoints.drop_last();
        let last = endpoints.len() - 1;
        law_only_repeated_endpoints_are_refused(start);
        match repeated(start) {
            Some(endpoint) => {
                let (i, j) = choose|i: int, j: int|
                    {
                        &&& 0 <= i < j < start.len()
                        &&& #[trigger] start[i] == endpoint
                        &&& #[trigger] start[j] == endpoint
                        &&& forall|a: int, b: int|
                            0 <= a < b < j ==> #[trigger] start[a] != #[trigger] start[b]
                    };
                assert(endpoints[i] == endpoint && endpoints[j] == endpoint);
                assert forall|a: int, b: int| 0 <= a < b < j implies #[trigger] endpoints[a]
                    != #[trigger] endpoints[b] by {
                    assert(start[a] != start[b]);
                }
            },
            None => {
                assert forall|a: int, b: int| 0 <= a < b < last implies #[trigger] endpoints[a]
                    != #[trigger] endpoints[b] by {
                    assert(start[a] != start[b]);
                }
                if start.contains(endpoints.last()) {
                    let i = choose|i: int| 0 <= i < start.len() && start[i] == endpoints.last();
                    assert(endpoints[i] == endpoints[last]);
                } else {
                    assert forall|a: int, b: int|
                        0 <= a < b < endpoints.len() implies #[trigger] endpoints[a]
                        != #[trigger] endpoints[b] by {
                        if b == last {
                            assert(start[a] == endpoints[a]);
                        }
                    }
                }
            },
        }
    }
}

/// Applications render into System and capture from the three others: System is a
/// sink that takes frames in, and every other endpoint a source that gives them
/// out.
pub proof fn law_system_is_the_only_sink(plan: EndpointPlan, endpoint: EndpointId)
    requires
        plan.plans(endpoint),
    ensures
        plan.endpoint == endpoint,
        endpoint == EndpointId::System <==> plan.direction == PipeWireEndpointDirection::Input,
        endpoint == EndpointId::System ==> plan.media_class@ == "Audio/Sink"@ && plan.node_name@
            == "librewave.system"@ && plan.node_description@ == "LibreWave System"@,
        endpoint != EndpointId::System ==> plan.media_class@ == "Audio/Source"@,
        endpoint == EndpointId::Microphone ==> plan.node_name@ == "librewave.microphone"@
            && plan.node_description@ == "LibreWave Microphone"@,
        endpoint == EndpointId::MonitorMix ==> plan.node_name@ == "librewave.monitor-mix"@
            && plan.node_description@ == "LibreWave Monitor Mix"@,
        endpoint == EndpointId::StreamMix ==> plan.node_name@ == "librewave.stream-mix"@
            && plan.node_description@ == "LibreWave Stream Mix"@,
        plan.node_virtual,
        deliberate().len() == 4,
        deliberate().contains(endpoint),
{
    assert(deliberate()[0] == EndpointId::System);
    assert(deliberate()[1] == EndpointId::Microphone);
    assert(deliberate()[2] == EndpointId::MonitorMix);
    assert(deliberate()[3] == EndpointId::StreamMix);
}

} // verus!
