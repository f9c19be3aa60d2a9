//! Watching the `PipeWire` registry and planning the internal links.

use librewave_platform_linux::audio_host::endpoint_plans;
use librewave_platform_linux::audio_host::endpoints::deliberate_endpoints;
use librewave_platform_linux::audio_host::graph::{
    filter_node_name, filter_ports, graph_nodes, plan_links, validate_endpoint_count,
    validate_filter_ports, GraphError,
};
use librewave_platform_linux::audio_host::registry::{GlobalKind, RegistryState};

const SYSTEM: u32 = 30;
const MICROPHONE: u32 = 31;
const MONITOR: u32 = 32;
const STREAM: u32 = 33;
const FILTER: u32 = 40;

fn text(value: &str) -> Option<String> {
    Some(String::from(value))
}

fn node(state: &mut RegistryState, id: u32, name: &str, class: &str) {
    state.observe(id, GlobalKind::Node { name: text(name), class: text(class) });
}

fn port(state: &mut RegistryState, id: u32, node_id: u32, direction: &str, name: &str, channel: &str) {
    state.observe(
        id,
        GlobalKind::Port {
            node_id: Some(node_id.to_string()),
            direction: text(direction),
            name: text(name),
            channel: text(channel),
            format_dsp: text("32 bit float mono audio"),
        },
    );
}

/// A registry with the four endpoints, the filter and all their ports.
fn complete() -> RegistryState {
    let mut state = RegistryState::new();
    node(&mut state, SYSTEM, "librewave.system", "Audio/Sink");
    node(&mut state, MICROPHONE, "librewave.microphone", "Audio/Source");
    node(&mut state, MONITOR, "librewave.monitor-mix", "Audio/Source");
    node(&mut state, STREAM, "librewave.stream-mix", "Audio/Source");
    node(&mut state, FILTER, filter_node_name(), "Stream/Output/Audio");
    for (index, output, name, channel) in filter_ports() {
        let direction = if output { "out" } else { "in" };
        port(&mut state, 100 + index as u32, FILTER, direction, name, channel);
    }
    for (offset, channel) in ["FL", "FR"].into_iter().enumerate() {
        let offset = offset as u32;
        port(&mut state, 200 + offset, SYSTEM, "out", &format!("monitor_{channel}"), channel);
        port(&mut state, 210 + offset, SYSTEM, "in", &format!("playback_{channel}"), channel);
        for (base, endpoint) in [(220, MICROPHONE), (230, MONITOR), (240, STREAM)] {
            port(&mut state, base + offset, endpoint, "in", &format!("playback_{channel}"), channel);
        }
    }
    state
}

#[test]
fn a_complete_graph_gets_its_eight_links() {
    let plans = endpoint_plans(&deliberate_endpoints()).expect("plans");
    let mut state = complete();
    assert_eq!(validate_filter_ports(&state, FILTER), Ok(()));
    let links = plan_links(&mut state, &plans, SYSTEM, Some(FILTER)).expect("links");
    assert_eq!(
        links,
        [
            (200, 100),
            (201, 101),
            (102, 220),
            (103, 221),
            (104, 230),
            (105, 231),
            (106, 240),
            (107, 241),
        ]
    );
    assert_eq!(state.system_playback_ports, Some((210, 211)));
    assert_eq!(validate_endpoint_count(&state), Ok(()));
    let nodes = graph_nodes(&state, &plans).expect("nodes");
    assert_eq!((nodes.system, nodes.filter, nodes.stream), (SYSTEM, FILTER, STREAM));
}

#[test]
fn an_incomplete_graph_names_what_is_missing() {
    let plans = endpoint_plans(&deliberate_endpoints()).expect("plans");
    let mut state = RegistryState::new();
    let missing = |name: &str| Err(GraphError::MissingNode(String::from(name)));
    assert_eq!(
        plan_links(&mut state, &plans, SYSTEM, None),
        missing("librewave.internal.mixer")
    );
    let mut state = complete();
    assert_eq!(
        plan_links(&mut state, &plans, SYSTEM, Some(FILTER + 1)),
        missing("librewave.internal.mixer")
    );
    state.remove(103);
    assert_eq!(
        plan_links(&mut state, &plans, SYSTEM, Some(FILTER)),
        Err(GraphError::InvalidFilterPort(String::from("microphone_FR")))
    );
    let mut state = complete();
    port(&mut state, 150, FILTER, "out", "extra", "FL");
    assert_eq!(
        plan_links(&mut state, &plans, SYSTEM, Some(FILTER)),
        Err(GraphError::InvalidFilterPort(String::from("port-count")))
    );
    let mut state = complete();
    state.remove(MONITOR);
    assert_eq!(
        plan_links(&mut state, &plans, SYSTEM, Some(FILTER)),
        missing("librewave.monitor-mix")
    );
    assert_eq!(validate_endpoint_count(&state), Err(GraphError::EndpointCount(3)));
    let mut state = complete();
    state.remove(231);
    assert_eq!(
        plan_links(&mut state, &plans, SYSTEM, Some(FILTER)),
        Err(GraphError::MissingPort {
            node_id: MONITOR,
            direction: String::from("in"),
            name: String::from("playback_FR"),
        })
    );
    assert_eq!(graph_nodes(&state, &plans).map(|nodes| nodes.monitor), Ok(MONITOR));
}

#[test]
fn the_link_word_follows_both_system_links() {
    let mut state = RegistryState::new();
    state.set_system_playback_ports(210, 211);
    assert_eq!(state.system_link_word, 0);
    state.observe(300, GlobalKind::Link { input_port: text("210") });
    assert_eq!(state.system_link_word, 0);
    state.observe(301, GlobalKind::Link { input_port: text("211") });
    assert_eq!(state.system_link_word, 3);
    state.observe(302, GlobalKind::Link { input_port: text("210") });
    assert_eq!(state.system_link_word, 3);
    state.remove(300);
    assert_eq!(state.system_link_word, 3);
    state.remove(302);
    assert_eq!(state.system_link_word, 4);
    state.observe(303, GlobalKind::Link { input_port: text("210") });
    assert_eq!(state.system_link_word, 7);
    state.observe(304, GlobalKind::Link { input_port: text("x") });
    state.observe(305, GlobalKind::Other);
    assert_eq!(state.system_link_word, 7);
}

#[test]
fn a_removed_node_takes_its_ports_and_name_with_it() {
    let mut state = complete();
    assert_eq!(state.node_id("librewave.system"), Ok(SYSTEM));
    assert_eq!(state.find(SYSTEM, "in", "playback_FL").map(|port| port.id), Some(210));
    state.remove(SYSTEM);
    assert_eq!(
        state.node_id("librewave.system"),
        Err(GraphError::MissingNode(String::from("librewave.system")))
    );
    assert!(state.find(SYSTEM, "in", "playback_FL").is_none());
    assert_eq!(
        state.port_id(SYSTEM, "out", "monitor_FL"),
        Err(GraphError::MissingPort {
            node_id: SYSTEM,
            direction: String::from("out"),
            name: String::from("monitor_FL"),
        })
    );
}

#[test]
fn graph_errors_describe_themselves() {
    assert_eq!(
        GraphError::InvalidEndpointContract.message(),
        "invalid PipeWire endpoint contract"
    );
    assert_eq!(GraphError::RoundtripTimeout.message(), "PipeWire roundtrip timed out");
    assert_eq!(
        GraphError::MissingNode(String::from("a")).message(),
        "PipeWire node a did not appear"
    );
    assert_eq!(GraphError::PipeWire(String::from("gone")).message(), "gone");
}
