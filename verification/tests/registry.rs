use cpal_pipewire::properties::Properties;
use cpal_pipewire::registry::{
    handle_global_event, handle_global_remove_event, GlobalObject, RegistryState,
};

fn props(pairs: &[(&str, &str)]) -> Option<Properties> {
    let mut p = Properties::new();
    for (k, v) in pairs {
        p.push(k.to_string(), v.to_string());
    }
    Some(p)
}

fn node(id: u32, pairs: &[(&str, &str)]) -> GlobalObject {
    GlobalObject { id, is_node: true, props: props(pairs) }
}

#[test]
fn new_registry_is_empty() {
    let s = RegistryState::new();
    assert!(s.nodes.is_empty());
    assert_eq!(s.default_sink_id, None);
    assert_eq!(s.default_source_id, None);
    assert!(s.devices().is_empty());
    assert!(s.default_input_device().is_none());
    assert!(s.default_output_device().is_none());
}

#[test]
fn first_sink_becomes_default_output() {
    let mut s = RegistryState::new();
    handle_global_event(
        &node(
            40,
            &[("media.class", "Audio/Sink"), ("node.name", "alsa_output"), ("node.description", "Speakers")],
        ),
        &mut s,
    );
    let info = &s.nodes[&40];
    assert_eq!(info.id, 40);
    assert_eq!(info.name, "alsa_output");
    assert_eq!(info.description, "Speakers");
    assert_eq!(info.media_class, "Audio/Sink");
    assert!(info.is_output);
    assert!(!info.is_input);
    assert_eq!(s.default_sink_id, Some(40));
    assert_eq!(s.default_source_id, None);
}

#[test]
fn first_source_becomes_default_input() {
    let mut s = RegistryState::new();
    handle_global_event(&node(7, &[("media.class", "Audio/Source")]), &mut s);
    assert_eq!(s.default_source_id, Some(7));
    assert_eq!(s.default_sink_id, None);
    assert!(s.nodes[&7].is_input);
    assert!(s.default_input_device().is_some());
    assert!(s.default_output_device().is_none());
}

#[test]
fn objects_that_are_not_nodes_are_ignored() {
    let mut s = RegistryState::new();
    let g = GlobalObject { id: 3, is_node: false, props: props(&[("media.class", "Audio/Sink")]) };
    handle_global_event(&g, &mut s);
    assert!(s.nodes.is_empty());
    assert_eq!(s.default_sink_id, None);
}

#[test]
fn nodes_of_other_classes_are_ignored() {
    let mut s = RegistryState::new();
    handle_global_event(&node(3, &[("media.class", "Video/Source")]), &mut s);
    handle_global_event(&node(4, &[]), &mut s);
    handle_global_event(&GlobalObject { id: 5, is_node: true, props: None }, &mut s);
    assert!(s.nodes.is_empty());
    assert_eq!(s.default_source_id, None);
}

#[test]
fn name_falls_back_to_object_path_then_unknown() {
    let mut s = RegistryState::new();
    handle_global_event(&node(1, &[("media.class", "Audio/Sink"), ("object.path", "alsa:pcm:0")]), &mut s);
    handle_global_event(&node(2, &[("media.class", "Audio/Sink")]), &mut s);
    assert_eq!(s.nodes[&1].name, "alsa:pcm:0");
    assert_eq!(s.nodes[&1].description, "alsa:pcm:0");
    assert_eq!(s.nodes[&2].name, "Unknown");
    assert_eq!(s.nodes[&2].description, "Unknown");
}

#[test]
fn description_falls_back_to_nick() {
    let mut s = RegistryState::new();
    handle_global_event(
        &node(1, &[("media.class", "Audio/Source"), ("node.name", "mic"), ("node.nick", "Microphone")]),
        &mut s,
    );
    assert_eq!(s.nodes[&1].name, "mic");
    assert_eq!(s.nodes[&1].description, "Microphone");
}

#[test]
fn node_marked_default_takes_over() {
    let mut s = RegistryState::new();
    handle_global_event(&node(1, &[("media.class", "Audio/Sink")]), &mut s);
    handle_global_event(&node(2, &[("media.class", "Audio/Sink")]), &mut s);
    assert_eq!(s.default_sink_id, Some(1));
    handle_global_event(&node(3, &[("media.class", "Audio/Sink"), ("node.default", "true")]), &mut s);
    assert_eq!(s.default_sink_id, Some(3));
    handle_global_event(&node(4, &[("media.class", "Audio/Source"), ("node.default", "true")]), &mut s);
    assert_eq!(s.default_source_id, Some(4));
    assert_eq!(s.default_sink_id, Some(3));
    handle_global_event(&node(5, &[("media.class", "Audio/Sink"), ("node.default", "false")]), &mut s);
    assert_eq!(s.default_sink_id, Some(3));
    assert_eq!(s.nodes.len(), 5);
}

#[test]
fn first_matching_property_wins() {
    let mut s = RegistryState::new();
    handle_global_event(
        &node(9, &[("media.class", "Audio/Sink"), ("node.name", "a"), ("node.name", "b")]),
        &mut s,
    );
    assert_eq!(s.nodes[&9].name, "a");
}

#[test]
fn announcing_twice_changes_nothing() {
    let mut s = RegistryState::new();
    let g = node(1, &[("media.class", "Audio/Sink"), ("node.description", "Out")]);
    handle_global_event(&g, &mut s);
    handle_global_event(&g, &mut s);
    assert_eq!(s.nodes.len(), 1);
    assert_eq!(s.default_sink_id, Some(1));
}

#[test]
fn removing_default_sink_picks_another_output() {
    let mut s = RegistryState::new();
    handle_global_event(&node(1, &[("media.class", "Audio/Sink")]), &mut s);
    handle_global_event(&node(2, &[("media.class", "Audio/Source")]), &mut s);
    handle_global_event(&node(3, &[("media.class", "Audio/Sink")]), &mut s);
    handle_global_remove_event(1, &mut s);
    assert!(!s.nodes.contains_key(&1));
    assert_eq!(s.default_sink_id, Some(3));
    assert_eq!(s.default_source_id, Some(2));
}

#[test]
fn removing_last_output_clears_default_sink() {
    let mut s = RegistryState::new();
    handle_global_event(&node(1, &[("media.class", "Audio/Sink")]), &mut s);
    handle_global_event(&node(2, &[("media.class", "Audio/Source")]), &mut s);
    handle_global_remove_event(1, &mut s);
    assert_eq!(s.default_sink_id, None);
    assert_eq!(s.default_source_id, Some(2));
    handle_global_remove_event(2, &mut s);
    assert_eq!(s.default_source_id, None);
    assert!(s.nodes.is_empty());
}

#[test]
fn removing_other_node_keeps_defaults() {
    let mut s = RegistryState::new();
    handle_global_event(&node(1, &[("media.class", "Audio/Sink")]), &mut s);
    handle_global_event(&node(2, &[("media.class", "Audio/Sink")]), &mut s);
    handle_global_remove_event(2, &mut s);
    assert_eq!(s.default_sink_id, Some(1));
    handle_global_remove_event(77, &mut s);
    assert_eq!(s.default_sink_id, Some(1));
    assert_eq!(s.nodes.len(), 1);
}

#[test]
fn devices_lists_every_node() {
    let mut s = RegistryState::new();
    for id in 10..14u32 {
        let class = if id % 2 == 0 { "Audio/Sink" } else { "Audio/Source" };
        handle_global_event(&node(id, &[("media.class", class)]), &mut s);
    }
    let devices = s.devices();
    assert_eq!(devices.len(), 4);
    let mut names: Vec<String> = devices.iter().map(|d| d.id().unwrap().1).collect();
    names.sort();
    assert_eq!(
        names,
        vec!["pipewire-node-10", "pipewire-node-11", "pipewire-node-12", "pipewire-node-13"]
    );
}

#[test]
fn default_devices_follow_defaults() {
    let mut s = RegistryState::new();
    handle_global_event(&node(5, &[("media.class", "Audio/Source"), ("node.description", "Mic")]), &mut s);
    handle_global_event(&node(6, &[("media.class", "Audio/Sink"), ("node.description", "Spk")]), &mut s);
    let input = s.default_input_device().unwrap();
    let output = s.default_output_device().unwrap();
    assert_eq!(input.name().unwrap(), "Mic");
    assert_eq!(output.name().unwrap(), "Spk");
}

#[test]
fn default_pointing_at_missing_node_gives_no_device() {
    let mut s = RegistryState::new();
    s.default_sink_id = Some(99);
    assert!(s.default_output_device().is_none());
}

#[test]
fn reannouncing_default_sink_as_source_keeps_sink_id() {
    let mut s = RegistryState::new();
    handle_global_event(&node(5, &[("media.class", "Audio/Sink")]), &mut s);
    handle_global_event(&node(5, &[("media.class", "Audio/Source")]), &mut s);
    assert_eq!(s.default_sink_id, Some(5));
    assert_eq!(s.default_source_id, Some(5));
    assert!(s.nodes[&5].is_input);
    assert!(!s.nodes[&5].is_output);
}
