//! What the graph owner has seen in the `PipeWire` registry.

use crate::assoc::{has_value, maps_to, without_id, IdMap, NameMap};
use crate::audio_host::graph::{GraphError, GraphErrorView};
use crate::device::{copy_optional, optional_text};
use crate::parse::{characters, parse_number, parsed_number};
use vstd::prelude::*;
use vstd::string::*;

verus! {

/// One port seen in the registry.
#[derive(Debug)]
pub struct ObservedPort {
    pub id: u32,
    pub node_id: u32,
    pub direction: String,
    pub name: String,
    pub channel: Option<String>,
    pub format_dsp: Option<String>,
}

/// What a port holds.
pub struct PortView {
    pub id: u32,
    pub node_id: u32,
    pub direction: Seq<char>,
    pub name: Seq<char>,
    pub channel: Option<Seq<char>>,
    pub format_dsp: Option<Seq<char>>,
}

impl View for ObservedPort {
    type V = PortView;

    open spec fn view(&self) -> PortView {
        PortView {
            id: self.id,
            node_id: self.node_id,
            direction: self.direction@,
            name: self.name@,
            channel: optional_text(self.channel),
            format_dsp: optional_text(self.format_dsp),
        }
    }
}

impl ObservedPort {
    fn copied(&self) -> (copy: ObservedPort)
        ensures
            copy@ == self@,
    {
        ObservedPort {
            id: self.id,
            node_id: self.node_id,
            direction: self.direction.clone(),
            name: self.name.clone(),
            channel: copy_optional(&self.channel),
            format_dsp: copy_optional(&self.format_dsp),
        }
    }
}

/// What each port holds.
pub open spec fn port_views(ports: Seq<ObservedPort>) -> Seq<PortView> {
    Seq::new(ports.len(), |i: int| ports[i]@)
}

/// The properties of a new registry object that the graph owner reads.
#[derive(Debug)]
pub enum GlobalKind {
    Node { name: Option<String>, class: Option<String> },
    Port {
        node_id: Option<String>,
        direction: Option<String>,
        name: Option<String>,
        channel: Option<String>,
        format_dsp: Option<String>,
    },
    Link { input_port: Option<String> },
    Other,
}

/// The number that an optional property denotes.
pub open spec fn property_number(text: Option<String>) -> Option<u32> {
    match text {
        None => None,
        Some(text) => match parsed_number(text@, 10, 0xffff_ffff) {
            Some(number) => Some(number as u32),
            None => None,
        },
    }
}

fn parse_property(text: &Option<String>) -> (number: Option<u32>)
    ensures
        number == property_number(*text),
{
    match text {
        None => None,
        Some(text) => {
            let digits = characters(text.as_str());
            match parse_number(digits.as_slice(), 10, 0xffff_ffff) {
                Some(number) => Some(number as u32),
                None => None,
            }
        },
    }
}

/// What a registry state holds.
pub struct RegistryView {
    pub objects: Set<u32>,
    pub names: Map<Seq<char>, u32>,
    pub classes: Map<u32, Seq<char>>,
    pub ports: Seq<PortView>,
    pub links: Map<u32, u32>,
    pub system_ports: Option<(u32, u32)>,
    pub generation: u64,
    pub present: bool,
    pub word: u64,
}

/// The published word of a link generation: odd while both links are present.
pub open spec fn link_word(generation: u64, present: bool) -> u64 {
    if generation > u64::MAX / 2 {
        u64::MAX
    } else if present {
        (2 * generation + 1) as u64
    } else {
        (2 * generation) as u64
    }
}

impl RegistryView {
    /// Whether both System playback ports are linked.
    pub open spec fn linked(self) -> bool {
        match self.system_ports {
            Some((left, right)) => maps_to(self.links, left) && maps_to(self.links, right),
            None => false,
        }
    }

    /// This state with the System links published: only a change makes a new
    /// generation.
    pub open spec fn published(self) -> Self {
        if self.linked() == self.present {
            self
        } else {
            let generation = if self.generation == u64::MAX {
                u64::MAX
            } else {
                (self.generation + 1) as u64
            };
            RegistryView {
                present: self.linked(),
                generation,
                word: link_word(generation, self.linked()),
                ..self
            }
        }
    }

    /// This state after a new object appeared.
    pub open spec fn observed(self, id: u32, kind: GlobalKind) -> Self {
        let seen = match kind {
            GlobalKind::Node { name, class } => RegistryView {
                names: match name {
                    Some(name) => self.names.insert(name@, id),
                    None => self.names,
                },
                classes: match class {
                    Some(class) => self.classes.insert(id, class@),
                    None => self.classes,
                },
                ..self
            },
            GlobalKind::Port { node_id, direction, name, channel, format_dsp } => match (
                property_number(node_id),
                direction,
                name,
            ) {
                (Some(node_id), Some(direction), Some(name)) => RegistryView {
                    ports: self.ports.push(
                        PortView {
                            id,
                            node_id,
                            direction: direction@,
                            name: name@,
                            channel: optional_text(channel),
                            format_dsp: optional_text(format_dsp),
                        },
                    ),
                    ..self
                },
                _ => self,
            },
            GlobalKind::Link { input_port } => match property_number(input_port) {
                Some(input) => RegistryView {
                    links: self.links.insert(id, input),
                    ..self
                }.published(),
                None => self,
            },
            GlobalKind::Other => self,
        };
        RegistryView { objects: seen.objects.insert(id), ..seen }
    }

    /// This state after an object was removed: its names, class, link and ports,
    /// and the ports of a removed node, go with it.
    pub open spec fn removed(self, id: u32) -> Self {
        let unlinked = RegistryView {
            objects: self.objects.remove(id),
            links: self.links.remove(id),
            ..self
        }.published();
        RegistryView {
            names: without_id(unlinked.names, id),
            classes: unlinked.classes.remove(id),
            ports: ports_without(unlinked.ports, id),
            ..unlinked
        }
    }
}

/// The ports that are neither the object `id` nor belong to the node `id`.
pub open spec fn ports_without(ports: Seq<PortView>, id: u32) -> Seq<PortView>
    decreases ports.len(),
{
    if ports.len() == 0 {
        Seq::empty()
    } else {
        let rest = ports_without(ports.drop_last(), id);
        if ports.last().id != id && ports.last().node_id != id {
            rest.push(ports.last())
        } else {
            rest
        }
    }
}

/// Whether a port is the one asked for.
pub open spec fn is_port(port: PortView, node_id: u32, direction: Seq<char>, name: Seq<char>)
    -> bool {
    port.node_id == node_id && port.direction == direction && port.name == name
}

/// The first port asked for, if there is one.
pub open spec fn find_port(
    ports: Seq<PortView>,
    node_id: u32,
    direction: Seq<char>,
    name: Seq<char>,
) -> Option<PortView>
    decreases ports.len(),
{
    if ports.len() == 0 {
        None
    } else if is_port(ports[0], node_id, direction, name) {
        Some(ports[0])
    } else {
        find_port(ports.drop_first(), node_id, direction, name)
    }
}

/// The objects, names, classes, ports and links seen in the registry.
#[derive(Debug)]
pub struct RegistryState {
    pub objects: IdMap<()>,
    pub node_names: NameMap,
    pub node_classes: IdMap<String>,
    pub ports: Vec<ObservedPort>,
    pub link_inputs: IdMap<u32>,
    pub system_playback_ports: Option<(u32, u32)>,
    pub system_link_generation: u64,
    pub system_links_present: bool,
    /// The word that the filter's callbacks read.
    pub system_link_word: u64,
}

/// The class texts by node.
pub open spec fn class_views(classes: Map<u32, String>) -> Map<u32, Seq<char>> {
    Map::new(|id: u32| classes.dom().contains(id), |id: u32| classes[id]@)
}

impl RegistryState {
    /// No map holds a key twice.
    pub open spec fn wf(self) -> bool {
        &&& self.objects.wf()
        &&& self.node_names.wf()
        &&& self.node_classes.wf()
        &&& self.link_inputs.wf()
    }

    /// What this state holds.
    pub open spec fn view(self) -> RegistryView {
        RegistryView {
            objects: self.objects@.dom(),
            names: self.node_names@,
            classes: class_views(self.node_classes@),
            ports: port_views(self.ports@),
            links: self.link_inputs@,
            system_ports: self.system_playback_ports,
            generation: self.system_link_generation,
            present: self.system_links_present,
            word: self.system_link_word,
        }
    }

    pub fn new() -> (state: Self)
        ensures
            state.wf(),
            state@.objects == Set::<u32>::empty(),
            state@.names == Map::<Seq<char>, u32>::empty(),
            state@.classes == Map::<u32, Seq<char>>::empty(),
            state@.ports == Seq::<PortView>::empty(),
            state@.links == Map::<u32, u32>::empty(),
            state@.system_ports is None,
            state@.generation == 0,
            !state@.present,
            state@.word == 0,
    {
        let state = RegistryState {
            objects: IdMap::new(),
            node_names: NameMap::new(),
            node_classes: IdMap::new(),
            ports: Vec::new(),
            link_inputs: IdMap::new(),
            system_playback_ports: None,
            system_link_generation: 0,
            system_links_present: false,
            system_link_word: 0,
        };
        proof {
            assert(state@.objects =~= Set::<u32>::empty());
            assert(state@.classes =~= Map::<u32, Seq<char>>::empty());
            assert(state@.ports =~= Seq::<PortView>::empty());
        }
        state
    }

    /// Publishes a new generation where the System links changed.
    pub fn publish_system_links(&mut self)
        requires
            old(self).wf(),
        ensures
            final(self).wf(),
            final(self)@ == old(self)@.published(),
    {
        let present = match self.system_playback_ports {
            Some((left, right)) => has_value(&self.link_inputs, left) && has_value(
                &self.link_inputs,
                right,
            ),
            None => false,
        };
        if present != self.system_links_present {
            self.system_links_present = present;
            self.system_link_generation = self.system_link_generation.saturating_add(1);
            let generation: u64 = self.system_link_generation;
            self.system_link_word = if generation > u64::MAX / 2 {
                u64::MAX
            } else if present {
                2 * generation + 1
            } else {
                2 * generation
            };
        }
    }

    /// Fixes the System playback ports and publishes their links.
    pub fn set_system_playback_ports(&mut self, left: u32, right: u32)
        requires
            old(self).wf(),
        ensures
            final(self).wf(),
            final(self)@ == (RegistryView {
                system_ports: Some((left, right)),
                ..old(self)@
            }).published(),
    {
        self.system_playback_ports = Some((left, right));
        self.publish_system_links();
    }

    /// Takes a new registry object.
    pub fn observe(&mut self, id: u32, kind: GlobalKind)
        requires
            old(self).wf(),
        ensures
            final(self).wf(),
            final(self)@ == old(self)@.observed(id, kind),
    {
        let ghost before = self@;
        match kind {
            GlobalKind::Node { name, class } => {
                if let Some(name) = name {
                    self.node_names.insert(name, id);
                }
                if let Some(class) = class {
                    let ghost held = self.node_classes@;
                    let ghost text = class;
                    self.node_classes.insert(id, class);
                    proof {
                        assert(class_views(held.insert(id, text)) =~= class_views(held).insert(
                            id,
                            text@,
                        ));
                    }
                }
            },
            GlobalKind::Port { node_id, direction, name, channel, format_dsp } => {
                let number = parse_property(&node_id);
                if let Some(node_id) = number {
                    if let Some(direction) = direction {
                        if let Some(name) = name {
                            let ghost held = self.ports@;
                            let port = ObservedPort {
                                id,
                                node_id,
                                direction,
                                name,
                                channel,
                                format_dsp,
                            };
                            let ghost added = port@;
                            self.ports.push(port);
                            proof {
                                assert(port_views(self.ports@) =~= port_views(held).push(added));
                            }
                        }
                    }
                }
            },
            GlobalKind::Link { input_port } => {
                if let Some(input) = parse_property(&input_port) {
                    self.link_inputs.insert(id, input);
                    self.publish_system_links();
                }
            },
            GlobalKind::Other => {},
        }
        let ghost seen = self@;
        self.objects.insert(id, ());
        proof {
            assert(self@.objects =~= seen.objects.insert(id));
        }
    }

    /// Takes the removal of a registry object.
    pub fn remove(&mut self, id: u32)
        requires
            old(self).wf(),
        ensures
            final(self).wf(),
            final(self)@ == old(self)@.removed(id),
    {
        let ghost before = self@;
        self.objects.remove(id);
        self.link_inputs.remove(id);
        proof {
            assert(self@.objects =~= before.objects.remove(id));
        }
        self.publish_system_links();
        self.node_names.remove_id(id);
        let ghost classes = self.node_classes@;
        self.node_classes.remove(id);
        proof {
            assert(class_views(classes.remove(id)) =~= class_views(classes).remove(id));
        }
        let mut kept: Vec<ObservedPort> = Vec::new();
        let ghost all = port_views(self.ports@);
        proof {
            assert(port_views(kept@) =~= ports_without(all.take(0), id));
        }
        for index in 0..self.ports.len()
            invariant
                all == port_views(self.ports@),
                port_views(kept@) == ports_without(all.take(index as int), id),
        {
            let ghost held = kept@;
            proof {
                let prefix = all.take(index + 1);
                assert(prefix.drop_last() =~= all.take(index as int));
                assert(prefix.last() == self.ports@[index as int]@);
            }
            if self.ports[index].id != id && self.ports[index].node_id != id {
                let port = self.ports[index].copied();
                kept.push(port);
                proof {
                    assert(port_views(held.push(port)) =~= port_views(held).push(port@));
                }
            }
        }
        proof {
            assert(all.take(self.ports@.len() as int) =~= all);
        }
        self.ports = kept;
    }

    /// Finds a node by its name.
    pub fn node_id(&self, name: &str) -> (result: Result<u32, GraphError>)
        requires
            self.wf(),
        ensures
            match result {
                Ok(id) => self@.names.dom().contains(name@) && id == self@.names[name@],
                Err(error) => !self@.names.dom().contains(name@) && error@
                    == GraphErrorView::MissingNode(name@),
            },
    {
        let key = String::from_str(name);
        match self.node_names.get(&key) {
            Some(id) => Ok(id),
            None => Err(GraphError::MissingNode(key)),
        }
    }

    /// Finds the first port of a node by its direction and name.
    pub fn find(&self, node_id: u32, direction: &str, name: &str) -> (found: Option<&ObservedPort>)
        ensures
            match found {
                Some(port) => find_port(self@.ports, node_id, direction@, name@) == Some(port@),
                None => find_port(self@.ports, node_id, direction@, name@) is None,
            },
    {
        let wanted_direction = String::from_str(direction);
        let wanted_name = String::from_str(name);
        let ghost all = self@.ports;
        proof {
            assert(all.skip(0) =~= all);
        }
        for index in 0..self.ports.len()
            invariant
                all == self@.ports,
                wanted_direction@ == direction@,
                wanted_name@ == name@,
                find_port(all, node_id, direction@, name@) == find_port(
                    all.skip(index as int),
                    node_id,
                    direction@,
                    name@,
                ),
        {
            proof {
                assert(all.skip(index as int)[0] == self.ports@[index as int]@);
                assert(all.skip(index as int).drop_first() =~= all.skip(index + 1));
            }
            let port = &self.ports[index];
            let same_direction = port.direction == wanted_direction;
            let same_name = port.name == wanted_name;
            if port.node_id == node_id && same_direction && same_name {
                return Some(port);
            }
        }
        None
    }

    /// Finds the number of a node's port by its direction and name.
    pub fn port_id(&self, node_id: u32, direction: &str, name: &str) -> (result: Result<
        u32,
        GraphError,
    >)
        ensures
            match find_port(self@.ports, node_id, direction@, name@) {
                Some(port) => result == Ok::<u32, GraphError>(port.id),
                None => result is Err && result->Err_0@ == (GraphErrorView::MissingPort {
                    node_id,
                    direction: direction@,
                    name: name@,
                }),
            },
    {
        match self.find(node_id, direction, name) {
            Some(port) => Ok(port.id),
            None => Err(
                GraphError::MissingPort {
                    node_id,
                    direction: String::from_str(direction),
                    name: String::from_str(name),
                },
            ),
        }
    }
}

/// The word that callbacks read is odd exactly while both System playback ports
/// are linked, and every change of the links changes it.
pub proof fn law_word_follows_the_links(state: RegistryView)
    requires
        state.word == link_word(state.generation, state.present),
        state.generation < u64::MAX / 2,
    ensures
        state.published().word == link_word(
            state.published().generation,
            state.published().present,
        ),
        state.published().present == state.linked(),
        (state.published().word % 2 == 1) == state.linked(),
        state.linked() != state.present <==> state.published().word != state.word,
{
}

/// What a removed object left behind is gone: its link, its class, its names and
/// its ports.
pub proof fn law_removed_objects_leave_nothing(state: RegistryView, id: u32)
    ensures
        !state.removed(id).objects.contains(id),
        !state.removed(id).links.dom().contains(id),
        !state.removed(id).classes.dom().contains(id),
        forall|name: Seq<char>| #[trigger]
            state.removed(id).names.dom().contains(name) ==> state.removed(id).names[name] != id,
        forall|i: int|
            0 <= i < state.removed(id).ports.len() ==> (#[trigger] state.removed(id).ports[i]).id
                != id && state.removed(id).ports[i].node_id != id,
{
    assert forall|i: int| 0 <= i < state.removed(id).ports.len() implies (
    #[trigger] state.removed(id).ports[i]).id != id && state.removed(id).ports[i].node_id != id by {
        lemma_ports_without(state.ports, id, i);
    }
}

proof fn lemma_ports_without(ports: Seq<PortView>, id: u32, position: int)
    requires
        0 <= position < ports_without(ports, id).len(),
    ensures
        ports_without(ports, id)[position].id != id,
        ports_without(ports, id)[position].node_id != id,
    decreases ports.len(),
{
    if ports.len() > 0 {
        let rest = ports_without(ports.drop_last(), id);
        if position < rest.len() {
            lemma_ports_without(ports.drop_last(), id, position);
        }
    }
}

/// A port is found exactly by its node, direction and name, the first of several;
/// nothing is found exactly if no port has them.
pub proof fn law_ports_are_found_by_node_direction_and_name(
    ports: Seq<PortView>,
    node_id: u32,
    direction: Seq<char>,
    name: Seq<char>,
)
    ensures
        match find_port(ports, node_id, direction, name) {
            Some(port) => exists|i: int|
                {
                    &&& 0 <= i < ports.len()
                    &&& #[trigger] ports[i] == port
                    &&& port.node_id == node_id
                    &&& port.direction == direction
                    &&& port.name == name
                    &&& forall|j: int|
                        0 <= j < i ==> (#[trigger] ports[j]).node_id != node_id
                            || ports[j].direction != direction || ports[j].name != name
                },
            None => forall|i: int|
                0 <= i < ports.len() ==> (#[trigger] ports[i]).node_id != node_id
                    || ports[i].direction != direction || ports[i].name != name,
        },
    decreases ports.len(),
{
    if ports.len() > 0 {
        if is_port(ports[0], node_id, direction, name) {
            assert(ports[0] == ports[0]);
        } else {
            let rest = ports.drop_first();
            law_ports_are_found_by_node_direction_and_name(rest, node_id, direction, name);
            match find_port(rest, node_id, direction, name) {
                Some(port) => {
                    let k = choose|k: int|
                        {
                            &&& 0 <= k < rest.len()
                            &&& #[trigger] rest[k] == port
                            &&& port.node_id == node_id
                            &&& port.direction == direction
                            &&& port.name == name
                            &&& forall|j: int|
                                0 <= j < k ==> (#[trigger] rest[j]).node_id != node_id
                                    || rest[j].direction != direction || rest[j].name != name
                        };
                    assert(ports[k + 1] == port);
                    assert forall|j: int| 0 <= j < k + 1 implies (#[trigger] ports[j]).node_id
                        != node_id || ports[j].direction != direction || ports[j].name != name by {
                        if j > 0 {
                            assert(rest[j - 1] == ports[j]);
                        }
                    }
                },
                None => {
                    assert forall|i: int| 0 <= i < ports.len() implies (
                    #[trigger] ports[i]).node_id != node_id || ports[i].direction != direction
                        || ports[i].name != name by {
                        if i > 0 {
                            assert(rest[i - 1] == ports[i]);
                        }
                    }
                },
            }
        }
    }
}

/// What a new object adds, and only that: a node its name and class under its own
/// number, a port its place at the end, a link its input port. The object itself is
/// seen in every case.
pub proof fn law_observed_objects_add_their_own(
    state: RegistryView,
    id: u32,
    name: String,
    class: String,
    input_port: Option<String>,
)
    ensures
        ({
            let kind = GlobalKind::Node { name: Some(name), class: Some(class) };
            let after = state.observed(id, kind);
            &&& after.objects == state.objects.insert(id)
            &&& after.names.dom().contains(name@)
            &&& after.names[name@] == id
            &&& forall|other: Seq<char>|
                other != name@ ==> #[trigger] after.names.dom().contains(other)
                    == state.names.dom().contains(other)
            &&& forall|other: Seq<char>|
                other != name@ && state.names.dom().contains(other)
                    ==> #[trigger] after.names[other] == state.names[other]
            &&& after.classes.dom().contains(id)
            &&& after.classes[id] == class@
            &&& after.ports == state.ports
            &&& after.links == state.links
            &&& after.word == state.word
        }),
        match property_number(input_port) {
            Some(input) => {
                let after = state.observed(id, (GlobalKind::Link { input_port }));
                &&& after.objects == state.objects.insert(id)
                &&& after.links == state.links.insert(id, input)
                &&& after.names == state.names
                &&& after.classes == state.classes
                &&& after.ports == state.ports
                &&& after.system_ports == state.system_ports
            },
            None => state.observed(id, (GlobalKind::Link { input_port })) == (RegistryView {
                objects: state.objects.insert(id),
                ..state
            }),
        },
        state.observed(id, GlobalKind::Other) == (RegistryView {
            objects: state.objects.insert(id),
            ..state
        }),
{
}

/// A new port is kept with its node, direction, name, channel and format exactly
/// if it names its node by number and has a direction and a name.
pub proof fn law_observed_ports_keep_their_properties(
    state: RegistryView,
    id: u32,
    node_id: Option<String>,
    direction: Option<String>,
    name: Option<String>,
    channel: Option<String>,
    format_dsp: Option<String>,
)
    ensures
        ({
            let kind = GlobalKind::Port { node_id, direction, name, channel, format_dsp };
            let after = state.observed(id, kind);
            &&& after.objects == state.objects.insert(id)
            &&& after.names == state.names
            &&& after.classes == state.classes
            &&& after.links == state.links
            &&& after.word == state.word
            &&& if property_number(node_id) is Some && direction is Some && name is Some {
                &&& after.ports.len() == state.ports.len() + 1
                &&& after.ports.drop_last() == state.ports
                &&& after.ports.last().id == id
                &&& after.ports.last().node_id == property_number(node_id)->Some_0
                &&& after.ports.last().direction == direction->Some_0@
                &&& after.ports.last().name == name->Some_0@
                &&& after.ports.last().channel == optional_text(channel)
                &&& after.ports.last().format_dsp == optional_text(format_dsp)
            } else {
                after.ports == state.ports
            }
        }),
{
    let kind = GlobalKind::Port { node_id, direction, name, channel, format_dsp };
    let after = state.observed(id, kind);
    if property_number(node_id) is Some && direction is Some && name is Some {
        assert(after.ports.drop_last() =~= state.ports);
    }
}

/// What a removed object did not own stays: every other object, link, class and
/// name, and every port that is not it and does not belong to it.
pub proof fn law_other_objects_stay(state: RegistryView, id: u32, position: int)
    ensures
        state.removed(id).objects == state.objects.remove(id),
        state.removed(id).links == state.links.remove(id),
        state.removed(id).classes == state.classes.remove(id),
        forall|name: Seq<char>|
            state.names.dom().contains(name) && state.names[name] != id
                ==> #[trigger] state.removed(id).names.dom().contains(name)
                && state.removed(id).names[name] == state.names[name],
        0 <= position < state.ports.len() && state.ports[position].id != id
            && state.ports[position].node_id != id ==> state.removed(id).ports.contains(
            state.ports[position],
        ),
        state.removed(id).system_ports == state.system_ports,
{
    if 0 <= position < state.ports.len() && state.ports[position].id != id
        && state.ports[position].node_id != id {
        lemma_other_ports_stay(state.ports, id, position);
    }
}

proof fn lemma_other_ports_stay(ports: Seq<PortView>, id: u32, position: int)
    requires
        0 <= position < ports.len(),
        ports[position].id != id,
        ports[position].node_id != id,
    ensures
        ports_without(ports, id).contains(ports[position]),
    decreases ports.len(),
{
    let rest = ports_without(ports.drop_last(), id);
    if position == ports.len() - 1 {
        assert(ports_without(ports, id) == rest.push(ports.last()));
        assert(ports_without(ports, id)[rest.len() as int] == ports[position]);
    } else {
        lemma_other_ports_stay(ports.drop_last(), id, position);
        let k = choose|k: int| 0 <= k < rest.len() && rest[k] == ports.drop_last()[position];
        assert(ports_without(ports, id)[k] == ports[position]);
    }
}

/// System is linked exactly if a link feeds its left playback port and a link
/// feeds its right one.
pub proof fn law_system_is_linked_on_both_sides(state: RegistryView)
    ensures
        match state.system_ports {
            Some((left, right)) => state.linked() <==> (exists|link: u32|
                state.links.dom().contains(link) && #[trigger] state.links[link] == left) && (
            exists|link: u32|
                state.links.dom().contains(link) && #[trigger] state.links[link] == right),
            None => !state.linked(),
        },
{
}

/// A property is a number exactly if it is there and denotes one of 32 bits in
/// decimal.
pub proof fn law_property_numbers_are_decimal(text: Option<String>)
    ensures
        match text {
            None => property_number(text) is None,
            Some(digits) => match property_number(text) {
                Some(number) => parsed_number(digits@, 10, u32::MAX as nat) == Some(number as nat),
                None => parsed_number(digits@, 10, u32::MAX as nat) is None,
            },
        },
{
}

} // verus!
