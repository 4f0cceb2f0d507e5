use orbit_water::plugin::{on_load_event, HostAction, LoadEvent, PluginState};
use orbit_water::scene::{EntityKind, SceneIndex};

#[test]
fn bootstrap_twice_gives_one_of_each() {
    let mut s = SceneIndex::new();
    s.bootstrap();
    s.bootstrap();
    assert_eq!(s.count(EntityKind::Camera), 1);
    assert_eq!(s.count(EntityKind::Plane), 1);
    assert_eq!(s.entities, vec![EntityKind::Camera, EntityKind::Plane]);
}

#[test]
fn bootstrap_adds_only_what_is_missing() {
    let mut s = SceneIndex::new();
    s.add(EntityKind::Other);
    s.add(EntityKind::Plane);
    assert_eq!(s.missing(), (true, false));
    s.bootstrap();
    assert_eq!(s.entities, vec![EntityKind::Other, EntityKind::Plane, EntityKind::Camera]);
    assert!(s.contains(EntityKind::Camera));
    assert_eq!(s.count(EntityKind::Other), 1);
}

#[test]
fn first_load_registers() {
    let r = on_load_event(PluginState::Unloaded, LoadEvent::Loaded { version: 1 });
    assert_eq!(r, (PluginState::Active { version: 1 }, HostAction::Register));
}

#[test]
fn first_load_failure_aborts() {
    let r = on_load_event(PluginState::Unloaded, LoadEvent::Failed);
    assert_eq!(r, (PluginState::Unloaded, HostAction::Abort));
}

#[test]
fn reload_registers_new_version() {
    let r = on_load_event(PluginState::Active { version: 1 }, LoadEvent::Loaded { version: 2 });
    assert_eq!(r, (PluginState::Active { version: 2 }, HostAction::Register));
    let same = on_load_event(PluginState::Active { version: 2 }, LoadEvent::Loaded { version: 2 });
    assert_eq!(same, (PluginState::Active { version: 2 }, HostAction::Ignore));
}

#[test]
fn reload_failure_keeps_previous() {
    let r = on_load_event(PluginState::Active { version: 3 }, LoadEvent::Failed);
    assert_eq!(r, (PluginState::Active { version: 3 }, HostAction::KeepPrevious));
}
