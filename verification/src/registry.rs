//! The registry of audio nodes that PipeWire announces, with the default
//! capture and playback nodes, kept up to date as nodes come and go.

use vstd::prelude::*;
use std::collections::HashMap;

use crate::device::Device;
use vstd::std_specs::hash::spec_hash_map_iter;
use vstd::std_specs::iter::IteratorSpec;
use crate::properties::{lookup, Properties, PropertiesView};

verus! {

broadcast use vstd::std_specs::hash::group_hash_axioms;

/// What the registry knows of one audio node (a device).
#[derive(Clone, Debug)]
pub struct NodeInfo {
    pub id: u32,
    pub name: String,
    pub description: String,
    pub media_class: String,
    pub is_input: bool,
    pub is_output: bool,
}

/// The mathematical content of a [`NodeInfo`].
pub ghost struct NodeView {
    pub id: u32,
    pub name: Seq<char>,
    pub description: Seq<char>,
    pub media_class: Seq<char>,
    pub is_input: bool,
    pub is_output: bool,
}

impl View for NodeInfo {
    type V = NodeView;

    open spec fn view(&self) -> NodeView {
        NodeView {
            id: self.id,
            name: self.name@,
            description: self.description@,
            media_class: self.media_class@,
            is_input: self.is_input,
            is_output: self.is_output,
        }
    }
}

impl NodeInfo {
    /// A copy of this node's information.
    pub fn duplicate(&self) -> (r: NodeInfo)
        ensures
            r@ == self@,
    {
        NodeInfo {
            id: self.id,
            name: self.name.clone(),
            description: self.description.clone(),
            media_class: self.media_class.clone(),
            is_input: self.is_input,
            is_output: self.is_output,
        }
    }
}

/// An object that PipeWire announces in its registry: its id, whether it is a
/// node, and its properties, if it has any.
#[derive(Clone, Debug)]
pub struct GlobalObject {
    pub id: u32,
    pub is_node: bool,
    pub props: Option<Properties>,
}

/// The mathematical content of a [`GlobalObject`].
pub ghost struct GlobalView {
    pub id: u32,
    pub is_node: bool,
    pub props: Option<PropertiesView>,
}

impl View for GlobalObject {
    type V = GlobalView;

    open spec fn view(&self) -> GlobalView {
        GlobalView {
            id: self.id,
            is_node: self.is_node,
            props: match self.props {
                Some(p) => Some(p@),
                None => None,
            },
        }
    }
}

/// The value of property `key`, if the object has properties and one of them is `key`.
pub open spec fn prop(props: Option<PropertiesView>, key: Seq<char>) -> Option<Seq<char>> {
    match props {
        Some(p) => lookup(p, key),
        None => None,
    }
}

/// `a` if it is present, else `b`.
pub open spec fn or_else(a: Option<Seq<char>>, b: Option<Seq<char>>) -> Option<Seq<char>> {
    if a is Some {
        a
    } else {
        b
    }
}

/// The value of `a` if it is present, else `d`.
pub open spec fn unwrap_or(a: Option<Seq<char>>, d: Seq<char>) -> Seq<char> {
    match a {
        Some(v) => v,
        None => d,
    }
}

/// The direction (capture, playback) of an audio node of the given media class;
/// `None` for any other class.
pub open spec fn audio_direction(media_class: Seq<char>) -> Option<(bool, bool)> {
    if media_class == "Audio/Source"@ {
        Some((true, false))
    } else if media_class == "Audio/Sink"@ {
        Some((false, true))
    } else {
        None
    }
}

/// The media class an object announces; empty when it announces none.
pub open spec fn media_class_of(g: GlobalView) -> Seq<char> {
    unwrap_or(prop(g.props, "media.class"@), ""@)
}

/// The audio node that an announced object describes, if it is an audio source or sink.
pub open spec fn announced_node(g: GlobalView) -> Option<NodeView> {
    if !g.is_node {
        None
    } else {
        match audio_direction(media_class_of(g)) {
            None => None,
            Some(dir) => {
                let name = unwrap_or(
                    or_else(prop(g.props, "node.name"@), prop(g.props, "object.path"@)),
                    "Unknown"@,
                );
                let description = unwrap_or(
                    or_else(prop(g.props, "node.description"@), prop(g.props, "node.nick"@)),
                    name,
                );
                Some(
                    NodeView {
                        id: g.id,
                        name,
                        description,
                        media_class: media_class_of(g),
                        is_input: dir.0,
                        is_output: dir.1,
                    },
                )
            },
        }
    }
}

/// Whether an announced object asks to be the default node of its direction.
pub open spec fn marked_default(g: GlobalView) -> bool {
    prop(g.props, "node.default"@) == Some("true"@)
}

/// The mathematical content of a [`RegistryState`].
pub ghost struct RegistryView {
    pub nodes: Map<u32, NodeView>,
    pub default_sink_id: Option<u32>,
    pub default_source_id: Option<u32>,
}

/// Whether some node of the map plays back audio.
pub open spec fn has_output(nodes: Map<u32, NodeView>) -> bool {
    exists|k: u32| nodes.contains_key(k) && #[trigger] nodes[k].is_output
}

/// Whether some node of the map captures audio.
pub open spec fn has_input(nodes: Map<u32, NodeView>) -> bool {
    exists|k: u32| nodes.contains_key(k) && #[trigger] nodes[k].is_input
}

impl RegistryView {
    /// The registry's invariant: every node is stored under its own id and has
    /// exactly one direction; each default names a present node of its
    /// direction; and there is a default whenever a node of that direction exists.
    pub open spec fn well_formed(self) -> bool {
        &&& forall|k: u32| self.nodes.contains_key(k) ==> #[trigger] self.nodes[k].id == k
        &&& forall|k: u32|
            self.nodes.contains_key(k) ==> #[trigger] self.nodes[k].is_input
                != self.nodes[k].is_output
        &&& (self.default_sink_id matches Some(k) ==> self.nodes.contains_key(k)
            && self.nodes[k].is_output)
        &&& (self.default_source_id matches Some(k) ==> self.nodes.contains_key(k)
            && self.nodes[k].is_input)
        &&& has_output(self.nodes) ==> self.default_sink_id is Some
        &&& has_input(self.nodes) ==> self.default_source_id is Some
    }

    /// The default capture node, if there is one and it is present.
    pub open spec fn default_input(self) -> Option<NodeView> {
        match self.default_source_id {
            Some(id) => if self.nodes.contains_key(id) {
                Some(self.nodes[id])
            } else {
                None
            },
            None => None,
        }
    }

    /// The default playback node, if there is one and it is present.
    pub open spec fn default_output(self) -> Option<NodeView> {
        match self.default_sink_id {
            Some(id) => if self.nodes.contains_key(id) {
                Some(self.nodes[id])
            } else {
                None
            },
            None => None,
        }
    }
}

/// The registry after PipeWire announced object `g`.
pub open spec fn after_global(s: RegistryView, g: GlobalView) -> RegistryView {
    match announced_node(g) {
        None => s,
        Some(node) => {
            let source = if marked_default(g) && node.is_input {
                Some(g.id)
            } else {
                s.default_source_id
            };
            let sink = if marked_default(g) && !node.is_input && node.is_output {
                Some(g.id)
            } else {
                s.default_sink_id
            };
            RegistryView {
                nodes: s.nodes.insert(g.id, node),
                default_sink_id: if node.is_output && sink is None {
                    Some(g.id)
                } else {
                    sink
                },
                default_source_id: if node.is_input && source is None {
                    Some(g.id)
                } else {
                    source
                },
            }
        },
    }
}

/// Whether `post` is a registry that removing object `id` from `pre` may give:
/// the node is gone, and a default that named it names some remaining node of
/// its direction, or none when no such node remains; other defaults stay.
pub open spec fn removal_allows(pre: RegistryView, post: RegistryView, id: u32) -> bool {
    &&& post.nodes == pre.nodes.remove(id)
    &&& if pre.default_sink_id == Some(id) {
        match post.default_sink_id {
            Some(k) => post.nodes.contains_key(k) && post.nodes[k].is_output,
            None => !has_output(post.nodes),
        }
    } else {
        post.default_sink_id == pre.default_sink_id
    }
    &&& if pre.default_source_id == Some(id) {
        match post.default_source_id {
            Some(k) => post.nodes.contains_key(k) && post.nodes[k].is_input,
            None => !has_input(post.nodes),
        }
    } else {
        post.default_source_id == pre.default_source_id
    }
}

/// Whether some node of `nodes` has the content `n`.
pub open spec fn lists_node(nodes: Map<u32, NodeView>, n: NodeView) -> bool {
    exists|k: u32| nodes.contains_key(k) && nodes[k] == n
}

/// Whether some device of `devices` has the content `n`.
pub open spec fn lists_device(devices: Seq<Device>, n: NodeView) -> bool {
    exists|i: int| 0 <= i < devices.len() && devices[i]@ == n
}

/// Whether `devices` holds one device for each node of `nodes`: `keys` lists
/// every key of the map once, and the device at each position has the
/// content of the node under the key at that position.
pub open spec fn enumerates(nodes: Map<u32, NodeView>, devices: Seq<Device>, keys: Seq<u32>) -> bool {
    &&& keys.len() == devices.len()
    &&& keys.no_duplicates()
    &&& forall|i: int|
        0 <= i < keys.len() ==> nodes.contains_key(#[trigger] keys[i]) && nodes[keys[i]]
            == devices[i]@
    &&& forall|k: u32| nodes.contains_key(k) ==> #[trigger] keys.contains(k)
}

/// The view of a map of nodes.
pub open spec fn nodes_view(m: Map<u32, NodeInfo>) -> Map<u32, NodeView> {
    m.map_values(|n: NodeInfo| n@)
}

/// The nodes PipeWire has announced and the default capture and playback nodes.
pub struct RegistryState {
    pub nodes: HashMap<u32, NodeInfo>,
    pub default_sink_id: Option<u32>,
    pub default_source_id: Option<u32>,
}

impl View for RegistryState {
    type V = RegistryView;

    open spec fn view(&self) -> RegistryView {
        RegistryView {
            nodes: nodes_view(self.nodes@),
            default_sink_id: self.default_sink_id,
            default_source_id: self.default_source_id,
        }
    }
}

/// The value of property `key` of an object's properties, as text.
fn prop_value(props: &Option<Properties>, key: &str) -> (r: Option<String>)
    ensures
        match r {
            Some(v) => prop(
                match props {
                    Some(p) => Some(p@),
                    None => None,
                },
                key@,
            ) == Some(v@),
            None => prop(
                match props {
                    Some(p) => Some(p@),
                    None => None,
                },
                key@,
            ) is None,
        },
{
    match props {
        Some(p) => p.get(key),
        None => None,
    }
}

/// The key of some node of `nodes` that captures (`want_input`) or plays back
/// (otherwise) audio; `None` when there is no such node. Which node is found
/// when there are several depends on the order in which the map is walked.
fn find_node(nodes: &HashMap<u32, NodeInfo>, want_input: bool) -> (r: Option<u32>)
    ensures
        match r {
            Some(k) => nodes@.contains_key(k) && (if want_input {
                nodes@[k].is_input
            } else {
                nodes@[k].is_output
            }),
            None => forall|k: u32|
                nodes@.contains_key(k) ==> !(if want_input {
                    #[trigger] nodes@[k].is_input
                } else {
                    nodes@[k].is_output
                }),
        },
{
    for (k, info) in it: nodes.iter()
        invariant
            forall|j: int|
                0 <= j < it.index() ==> !(if want_input {
                    (#[trigger] it.seq()[j]).1.is_input
                } else {
                    it.seq()[j].1.is_output
                }),
    {
        let found = if want_input {
            info.is_input
        } else {
            info.is_output
        };
        if found {
            return Some(*k);
        }
    }
    None
}

impl RegistryState {
    /// An empty registry with no defaults.
    pub fn new() -> (s: RegistryState)
        ensures
            s@.nodes == Map::<u32, NodeView>::empty(),
            s@.default_sink_id is None,
            s@.default_source_id is None,
            s@.well_formed(),
    {
        let s = RegistryState { nodes: HashMap::new(), default_sink_id: None, default_source_id: None };
        assert(s@.nodes =~= Map::<u32, NodeView>::empty());
        s
    }
}

/// Records an object that PipeWire announced: an audio source or sink is
/// stored under its id, becomes the default of its direction when it says so,
/// and also when there is no default of its direction yet; any other object is
/// ignored.
pub fn handle_global_event(global: &GlobalObject, state: &mut RegistryState)
    ensures
        final(state)@ == after_global(old(state)@, global@),
{
    if !global.is_node {
        return;
    }
    let media_class = match prop_value(&global.props, "media.class") {
        Some(v) => v,
        None => String::from_str(""),
    };
    let (is_input, is_output) = if media_class == String::from_str("Audio/Source") {
        (true, false)
    } else if media_class == String::from_str("Audio/Sink") {
        (false, true)
    } else {
        return;
    };
    let name = match prop_value(&global.props, "node.name") {
        Some(v) => v,
        None => match prop_value(&global.props, "object.path") {
            Some(v) => v,
            None => String::from_str("Unknown"),
        },
    };
    let description = match prop_value(&global.props, "node.description") {
        Some(v) => v,
        None => match prop_value(&global.props, "node.nick") {
            Some(v) => v,
            None => name.clone(),
        },
    };
    let node_info = NodeInfo {
        id: global.id,
        name,
        description,
        media_class,
        is_input,
        is_output,
    };
    let ghost pre = state@;
    let ghost node_view = node_info@;
    state.nodes.insert(global.id, node_info);
    assert(state@.nodes =~= pre.nodes.insert(global.id, node_view));
    match prop_value(&global.props, "node.default") {
        Some(is_default) => {
            if is_default == String::from_str("true") {
                if is_input {
                    state.default_source_id = Some(global.id);
                } else if is_output {
                    state.default_sink_id = Some(global.id);
                }
            }
        },
        None => {},
    }
    if is_input && state.default_source_id.is_none() {
        state.default_source_id = Some(global.id);
    }
    if is_output && state.default_sink_id.is_none() {
        state.default_sink_id = Some(global.id);
    }
}

/// Forgets an object that PipeWire removed; a default that named it passes to
/// another node of its direction if one remains, and is cleared otherwise.
pub fn handle_global_remove_event(id: u32, state: &mut RegistryState)
    ensures
        removal_allows(old(state)@, final(state)@, id),
{
    let ghost pre = state@;
    state.nodes.remove(&id);
    assert(state@.nodes =~= pre.nodes.remove(id));
    if state.default_sink_id == Some(id) {
        state.default_sink_id = None;
        match find_node(&state.nodes, false) {
            Some(new_id) => {
                state.default_sink_id = Some(new_id);
            },
            None => {},
        }
    }
    if state.default_source_id == Some(id) {
        state.default_source_id = None;
        match find_node(&state.nodes, true) {
            Some(new_id) => {
                state.default_source_id = Some(new_id);
            },
            None => {},
        }
    }
}


impl RegistryState {
    /// A device for every node of the registry, in the order the map is walked.
    pub fn devices(&self) -> (r: Vec<Device>)
        ensures
            r@.len() == self@.nodes.len(),
            forall|i: int| 0 <= i < r@.len() ==> lists_node(self@.nodes, #[trigger] r@[i]@),
            forall|k: u32|
                self@.nodes.contains_key(k) ==> lists_device(r@, #[trigger] self@.nodes[k]),
            exists|keys: Seq<u32>| enumerates(self@.nodes, r@, keys),
    {
        let mut r: Vec<Device> = Vec::new();
        let ghost v = spec_hash_map_iter(&self.nodes).remaining();
        for (k, info) in it: self.nodes.iter()
            invariant
                it.seq() == v,
                r@.len() == it.index(),
                forall|j: int| 0 <= j < it.index() ==> #[trigger] r@[j]@ == (it.seq()[j].1)@,
        {
            r.push(Device::from_node_info(info.duplicate()));
        }
        proof {
            assert(self@.nodes.dom() =~= self.nodes@.dom());
            assert forall|i: int| 0 <= i < r@.len() implies lists_node(self@.nodes, #[trigger] r@[i]@) by {
                let k = *v[i].0;
                assert(self.nodes@.contains_key(k) && self.nodes@[k] == *v[i].1);
                assert(self@.nodes.contains_key(k));
                assert(self@.nodes[k] == r@[i]@);
            }
            assert forall|k: u32| self@.nodes.contains_key(k) implies lists_device(r@, #[trigger] self@.nodes[k]) by {
                assert(self.nodes@.contains_key(k));
                assert(v.contains((&k, &self.nodes@[k])));
                let i = choose|i: int| 0 <= i < v.len() && v[i] == (&k, &self.nodes@[k]);
                assert(r@[i]@ == self@.nodes[k]);
            }
            assert(v.no_duplicates());
            let keys = v.map_values(|p: (&u32, &NodeInfo)| *p.0);
            assert forall|i: int, j: int| 0 <= i < keys.len() && 0 <= j < keys.len() && i != j
                implies keys[i] != keys[j] by {
                assert(self.nodes@.contains_key(*v[i].0) && self.nodes@[*v[i].0] == *v[i].1);
                assert(self.nodes@.contains_key(*v[j].0) && self.nodes@[*v[j].0] == *v[j].1);
                if keys[i] == keys[j] {
                    assert(v[i] == v[j]);
                }
            }
            assert forall|i: int| 0 <= i < keys.len() implies self@.nodes.contains_key(keys[i])
                && self@.nodes[keys[i]] == r@[i]@ by {
                assert(self.nodes@.contains_key(*v[i].0) && self.nodes@[*v[i].0] == *v[i].1);
            }
            assert forall|k: u32| self@.nodes.contains_key(k) implies keys.contains(k) by {
                assert(v.contains((&k, &self.nodes@[k])));
                let i = choose|i: int| 0 <= i < v.len() && v[i] == (&k, &self.nodes@[k]);
                assert(keys[i] == k);
            }
            assert(enumerates(self@.nodes, r@, keys));
        }
        r
    }

    /// The device of the default capture node, if there is one and it is present.
    pub fn default_input_device(&self) -> (r: Option<Device>)
        ensures
            match r {
                Some(d) => self@.default_input() == Some(d@),
                None => self@.default_input() is None,
            },
    {
        match self.default_source_id {
            Some(id) => match self.nodes.get(&id) {
                Some(info) => Some(Device::from_node_info(info.duplicate())),
                None => None,
            },
            None => None,
        }
    }

    /// The device of the default playback node, if there is one and it is present.
    pub fn default_output_device(&self) -> (r: Option<Device>)
        ensures
            match r {
                Some(d) => self@.default_output() == Some(d@),
                None => self@.default_output() is None,
            },
    {
        match self.default_sink_id {
            Some(id) => match self.nodes.get(&id) {
                Some(info) => Some(Device::from_node_info(info.duplicate())),
                None => None,
            },
            None => None,
        }
    }
}

/// Announcing an audio source or sink keeps the registry's invariant, unless
/// the announced id is the current default of the other direction.
pub proof fn lemma_global_event_keeps_invariant(s: RegistryView, g: GlobalView)
    requires
        s.well_formed(),
        !(s.default_sink_id == Some(g.id) && (announced_node(g) matches Some(n) && n.is_input)),
        !(s.default_source_id == Some(g.id) && (announced_node(g) matches Some(n) && n.is_output)),
    ensures
        after_global(s, g).well_formed(),
{
    let t = after_global(s, g);
    match announced_node(g) {
        None => {},
        Some(node) => {
            assert(node.is_input != node.is_output);
            if has_output(t.nodes) && !has_output(s.nodes) {
                let k = choose|k: u32| t.nodes.contains_key(k) && #[trigger] t.nodes[k].is_output;
                if k != g.id {
                    assert(s.nodes.contains_key(k) && s.nodes[k].is_output);
                }
            }
            if has_input(t.nodes) && !has_input(s.nodes) {
                let k = choose|k: u32| t.nodes.contains_key(k) && #[trigger] t.nodes[k].is_input;
                if k != g.id {
                    assert(s.nodes.contains_key(k) && s.nodes[k].is_input);
                }
            }
        },
    }
}

/// Removing any object keeps the registry's invariant, and afterwards the
/// removed node is neither listed nor a default.
pub proof fn lemma_removal_keeps_invariant(pre: RegistryView, post: RegistryView, id: u32)
    requires
        pre.well_formed(),
        removal_allows(pre, post, id),
    ensures
        post.well_formed(),
        !post.nodes.contains_key(id),
        post.default_sink_id != Some(id),
        post.default_source_id != Some(id),
{
    if has_output(post.nodes) {
        let k = choose|k: u32| post.nodes.contains_key(k) && #[trigger] post.nodes[k].is_output;
        assert(pre.nodes.contains_key(k) && pre.nodes[k].is_output);
    }
    if has_input(post.nodes) {
        let k = choose|k: u32| post.nodes.contains_key(k) && #[trigger] post.nodes[k].is_input;
        assert(pre.nodes.contains_key(k) && pre.nodes[k].is_input);
    }
}

/// An announced audio source or sink is listed under its id; it is the
/// default of its direction afterwards when it asked to be, or when that
/// direction had no default before.
pub proof fn lemma_announced_node_recorded(s: RegistryView, g: GlobalView)
    requires
        announced_node(g) is Some,
    ensures
        ({
            let node = announced_node(g)->0;
            let t = after_global(s, g);
            &&& t.nodes.contains_key(g.id)
            &&& t.nodes[g.id] == node
            &&& node.is_input && (marked_default(g) || s.default_source_id is None)
                ==> t.default_source_id == Some(g.id)
            &&& node.is_output && (marked_default(g) || s.default_sink_id is None)
                ==> t.default_sink_id == Some(g.id)
        }),
{
    assert(announced_node(g)->0.is_input != announced_node(g)->0.is_output);
}

/// In a well-formed registry there is a default capture device exactly when
/// some node captures audio, and there is a default playback device exactly
/// when some node plays back audio; each default has its direction.
pub proof fn lemma_default_device_available(s: RegistryView)
    requires
        s.well_formed(),
    ensures
        s.default_input() is Some <==> has_input(s.nodes),
        s.default_output() is Some <==> has_output(s.nodes),
        s.default_input() matches Some(n) ==> n.is_input,
        s.default_output() matches Some(n) ==> n.is_output,
{
    if let Some(k) = s.default_source_id {
        assert(s.nodes.contains_key(k) && s.nodes[k].is_input);
    }
    if let Some(k) = s.default_sink_id {
        assert(s.nodes.contains_key(k) && s.nodes[k].is_output);
    }
}

/// Announcing the same object a second time changes nothing.
pub proof fn lemma_global_event_idempotent(s: RegistryView, g: GlobalView)
    ensures
        after_global(after_global(s, g), g) == after_global(s, g),
{
    if let Some(node) = announced_node(g) {
        let t = after_global(s, g);
        assert(t.nodes.insert(g.id, node) =~= t.nodes);
    }
}

/// In a well-formed registry, removing an object it does not list changes nothing.
pub proof fn lemma_remove_unknown_changes_nothing(pre: RegistryView, post: RegistryView, id: u32)
    requires
        pre.well_formed(),
        !pre.nodes.contains_key(id),
        removal_allows(pre, post, id),
    ensures
        post == pre,
{
    assert(post.nodes =~= pre.nodes);
}

/// An announced node of class `Audio/Source` or `Audio/Sink` is recorded
/// under its id with that class, as a capture node for `Audio/Source` and a
/// playback node for `Audio/Sink`. Its name is its `node.name`, else its
/// `object.path`, else `Unknown`; its description is its `node.description`,
/// else its `node.nick`, else its name. It becomes the default of its
/// direction when its `node.default` is `true` or that direction had no
/// default; otherwise the defaults stay as they were.
pub proof fn lemma_announced_node_fields(s: RegistryView, g: GlobalView)
    requires
        g.is_node,
        prop(g.props, "media.class"@) == Some("Audio/Source"@) || prop(g.props, "media.class"@)
            == Some("Audio/Sink"@),
    ensures
        ({
            let t = after_global(s, g);
            let n = t.nodes[g.id];
            &&& t.nodes.contains_key(g.id)
            &&& n.id == g.id
            &&& Some(n.media_class) == prop(g.props, "media.class"@)
            &&& prop(g.props, "media.class"@) == Some("Audio/Source"@) ==> n.is_input && !n.is_output
            &&& prop(g.props, "media.class"@) == Some("Audio/Sink"@) ==> n.is_output && !n.is_input
            &&& prop(g.props, "node.name"@) matches Some(v) ==> n.name == v
            &&& prop(g.props, "node.name"@) is None ==> (prop(g.props, "object.path"@) matches Some(v)
                ==> n.name == v)
            &&& prop(g.props, "node.name"@) is None && prop(g.props, "object.path"@) is None
                ==> n.name == "Unknown"@
            &&& prop(g.props, "node.description"@) matches Some(d) ==> n.description == d
            &&& prop(g.props, "node.description"@) is None ==> (prop(g.props, "node.nick"@) matches Some(
                k,
            ) ==> n.description == k)
            &&& prop(g.props, "node.description"@) is None && prop(g.props, "node.nick"@) is None
                ==> n.description == n.name
            &&& prop(g.props, "media.class"@) == Some("Audio/Source"@) ==> {
                &&& t.default_sink_id == s.default_sink_id
                &&& prop(g.props, "node.default"@) == Some("true"@) ==> t.default_source_id == Some(g.id)
                &&& s.default_source_id is None ==> t.default_source_id == Some(g.id)
                &&& prop(g.props, "node.default"@) != Some("true"@) && s.default_source_id is Some
                    ==> t.default_source_id == s.default_source_id
            }
            &&& prop(g.props, "media.class"@) == Some("Audio/Sink"@) ==> {
                &&& t.default_source_id == s.default_source_id
                &&& prop(g.props, "node.default"@) == Some("true"@) ==> t.default_sink_id == Some(g.id)
                &&& s.default_sink_id is None ==> t.default_sink_id == Some(g.id)
                &&& prop(g.props, "node.default"@) != Some("true"@) && s.default_sink_id is Some
                    ==> t.default_sink_id == s.default_sink_id
            }
        }),
{
    reveal_strlit("Audio/Source");
    reveal_strlit("Audio/Sink");
    assert("Audio/Source"@.len() != "Audio/Sink"@.len());
}

/// An announced object that is not a node, or is a node of any class but
/// `Audio/Source` and `Audio/Sink`, leaves the registry as it was.
pub proof fn lemma_other_objects_ignored(s: RegistryView, g: GlobalView)
    requires
        !g.is_node || (prop(g.props, "media.class"@) != Some("Audio/Source"@) && prop(
            g.props,
            "media.class"@,
        ) != Some("Audio/Sink"@)),
    ensures
        after_global(s, g) == s,
{
    reveal_strlit("");
    reveal_strlit("Audio/Source");
    reveal_strlit("Audio/Sink");
    assert(""@.len() == 0);
    assert("Audio/Source"@.len() != 0);
    assert("Audio/Sink"@.len() != 0);
}

} // verus!
