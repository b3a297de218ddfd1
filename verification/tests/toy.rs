use fourdeers::input::ZoneMode;
use fourdeers::toy::{toy_id_order, Toy, ToyEntry, ToyManager, ViewAction};

#[derive(Debug, PartialEq)]
struct Scene {
    resets: u32,
    offset: i32,
}

impl Toy for Scene {
    fn in_default_state(&self) -> bool {
        self.offset == 0
    }

    fn reset(&mut self) {
        self.resets += 1;
        self.offset = 0;
    }
}

fn entry(id: &str, name: &str) -> ToyEntry<Scene> {
    ToyEntry { id: id.to_string(), name: name.to_string(), toy: Scene { resets: 0, offset: 0 } }
}

fn manager() -> ToyManager<Scene> {
    ToyManager::new(vec![
        entry("debug_scratchpad", "Debug Scratchpad"),
        entry("polytopes", "Polytopes"),
    ])
    .expect("the polytopes toy is registered")
}

#[test]
fn test_new_defaults_to_polytopes() {
    let mgr = manager();
    assert_eq!(mgr.active_toy_id(), "polytopes");
}

#[test]
fn test_switch_to_known_toy() {
    let mut mgr = manager();
    let ids: Vec<String> = mgr.toy_list().into_iter().map(|(id, _)| id.to_string()).collect();
    if ids.len() > 1 {
        mgr.switch_to(&ids[0]);
        assert_eq!(mgr.active_toy_id(), ids[0]);
    }
}

#[test]
fn test_switch_to_unknown_ignored() {
    let mut mgr = manager();
    mgr.switch_to("nonexistent_toy");
    assert_eq!(mgr.active_toy_id(), "polytopes");
}

#[test]
fn test_active_toy_has_name() {
    let mgr = manager();
    assert!(!mgr.active_toy_name().is_empty());
}

#[test]
fn test_toy_list_nonempty() {
    let mgr = manager();
    let list = mgr.toy_list();
    assert!(!list.is_empty());
    assert!(list.iter().any(|(id, _)| *id == "polytopes"));
}

#[test]
fn test_reset_active_does_not_panic() {
    let mut mgr = manager();
    mgr.reset_active();
    assert_eq!(mgr.active_toy_id(), "polytopes");
}

#[test]
fn reset_touches_only_the_active_toy() {
    let mut mgr = manager();
    mgr.reset_active();
    mgr.reset_active();
    assert_eq!(mgr.active_toy().resets, 2);
    mgr.switch_to("debug_scratchpad");
    assert_eq!(mgr.active_toy().resets, 0);
    assert_eq!(mgr.active_toy_name(), "Debug Scratchpad");
    assert_eq!(mgr.active_toy().zone_mode_for_view(true), ZoneMode::FourZones);
}

#[test]
fn toy_list_follows_display_order() {
    let mgr = manager();
    assert_eq!(
        mgr.toy_list(),
        vec![("polytopes", "Polytopes"), ("debug_scratchpad", "Debug Scratchpad")]
    );
    let only = ToyManager::new(vec![entry("polytopes", "P"), entry("other", "O")]).unwrap();
    assert_eq!(only.toy_list(), vec![("polytopes", "P")]);
}

#[test]
fn manager_requires_first_toy_of_order() {
    assert!(ToyManager::new(vec![entry("debug_scratchpad", "D")]).is_none());
    assert!(ToyManager::<Scene>::new(vec![]).is_none());
}

#[test]
fn switching_changes_active_toy() {
    let mut mgr = manager();
    mgr.switch_to("debug_scratchpad");
    assert_eq!(mgr.active_toy_id(), "debug_scratchpad");
    assert_eq!(mgr.active_toy_name(), "Debug Scratchpad");
    mgr.active_toy_mut().resets = 7;
    mgr.switch_to("polytopes");
    assert_eq!(mgr.active_toy().resets, 0);
    mgr.switch_to("debug_scratchpad");
    assert_eq!(mgr.active_toy().resets, 7);
}

#[test]
fn display_order_and_view_action() {
    assert_eq!(toy_id_order(), vec!["polytopes", "debug_scratchpad"]);
    assert_eq!(ViewAction::default(), ViewAction::NoAction);
    assert_ne!(ViewAction::SelectWaypoint(1), ViewAction::SelectWaypoint(2));
}

#[test]
fn reset_returns_active_toy_to_default_state() {
    let mut mgr = manager();
    mgr.active_toy_mut().offset = 5;
    mgr.switch_to("debug_scratchpad");
    mgr.active_toy_mut().offset = 3;
    mgr.reset_active();
    assert!(mgr.active_toy().in_default_state());
    mgr.switch_to("polytopes");
    assert_eq!(mgr.active_toy().offset, 5);
    assert!(!mgr.active_toy().in_default_state());
}
