use overlay_core::display::generate_window_id;
use overlay_core::display::legacy_window_ids;
use overlay_core::display::InstanceRegistry;
use overlay_core::display::MonitorInfo;
use overlay_core::display::WindowInstance;
use overlay_core::display::WindowPosition;
use overlay_core::manager::get_available_monitors;
use overlay_core::manager::main_window_startup_position;
use overlay_core::manager::move_main_window_to_monitor;
use overlay_core::manager::select_overlay_windows;
use overlay_core::manager::DisplayError;
use overlay_core::manager::DisplayState;
use overlay_core::manager::RawMonitor;

fn monitor(index: usize, name: &str, width: u32, height: u32, x: i32, y: i32) -> MonitorInfo {
    MonitorInfo { index, name: String::from(name), width, height, x, y }
}

fn two_monitors() -> Vec<MonitorInfo> {
    vec![
        monitor(0, "first", 1920, 1080, 0, 0),
        monitor(1, "second", 1080, 1920, 1920, 0),
    ]
}

#[test]
fn window_id_is_deterministic_per_slot_and_role() {
    assert_eq!(generate_window_id(0, true), "main_monitor_0");
    assert_eq!(generate_window_id(3, false), "secondary_monitor_3");
    assert_eq!(generate_window_id(12, false), "secondary_monitor_12");
    assert_eq!(generate_window_id(3, false), generate_window_id(3, false));
}

#[test]
fn legacy_ids_cover_all_naming_schemes() {
    let ids = legacy_window_ids(7);
    assert_eq!(ids, vec![
        String::from("monitor_7"),
        String::from("main_monitor_7"),
        String::from("secondary_monitor_7"),
    ]);
}

#[test]
fn registry_put_get_remove() {
    let mut reg = InstanceRegistry::new();
    assert!(reg.get(0).is_none());
    let inst = WindowInstance {
        id: generate_window_id(2, false),
        monitor_index: 2,
        x: 10,
        y: 20,
        is_primary: false,
    };
    reg.put(2, inst);
    let back = reg.get(2).expect("slot 2 must be filled");
    assert_eq!(back.id, "secondary_monitor_2");
    assert_eq!(back.monitor_index, 2);
    assert_eq!(back.x, 10);
    assert_eq!(back.y, 20);
    assert!(!back.is_primary);
    assert!(reg.get(1).is_none());
    let removed = reg.remove(2).expect("remove must return the instance");
    assert_eq!(removed.id, "secondary_monitor_2");
    assert!(reg.get(2).is_none());
    assert!(reg.remove(2).is_none());
}

#[test]
fn registry_remove_by_identifier_finds_the_slot() {
    let mut reg = InstanceRegistry::new();
    reg.put(0, WindowInstance {
        id: generate_window_id(0, true),
        monitor_index: 0,
        x: 0,
        y: 0,
        is_primary: true,
    });
    reg.put(1, WindowInstance {
        id: generate_window_id(1, false),
        monitor_index: 1,
        x: 5,
        y: 6,
        is_primary: false,
    });
    assert_eq!(reg.remove_by_identifier(&String::from("secondary_monitor_1")), Some(1));
    assert!(reg.get(1).is_none());
    assert!(reg.get(0).is_some());
    assert_eq!(reg.remove_by_identifier(&String::from("secondary_monitor_1")), None);
}

#[test]
fn registry_clear_and_list() {
    let mut reg = InstanceRegistry::new();
    assert!(reg.list_all().is_empty());
    reg.put(1, WindowInstance {
        id: generate_window_id(1, false),
        monitor_index: 1,
        x: 1,
        y: 1,
        is_primary: false,
    });
    reg.put(0, WindowInstance {
        id: generate_window_id(0, false),
        monitor_index: 0,
        x: 0,
        y: 0,
        is_primary: false,
    });
    let listed = reg.list_all();
    assert_eq!(listed.len(), 2);
    assert_eq!(listed[0].monitor_index, 0);
    assert_eq!(listed[1].monitor_index, 1);
    reg.clear_all();
    assert!(reg.list_all().is_empty());
}

#[test]
fn saved_position_is_reused_while_within_bounds() {
    let mut st = DisplayState::new();
    st.save_window_position(0, 500, 400, 400, 400);
    let m = monitor(0, "first", 1920, 1080, 0, 0);
    assert_eq!(st.get_window_position(0, &m), (500, 400));
}

#[test]
fn stale_position_falls_back_to_centered_default() {
    let mut st = DisplayState::new();
    // Remembered for a large monitor; the monitor then shrank to 1024x768.
    st.save_window_position(0, 1500, 900, 400, 400);
    let shrunk = monitor(0, "first", 1024, 768, 0, 0);
    assert_eq!(st.get_window_position(0, &shrunk), ((1024 - 400) / 2, (768 - 400) / 2));
}

#[test]
fn position_on_edge_counts_as_within() {
    let mut st = DisplayState::new();
    st.save_window_position(0, 1520, 680, 400, 400);
    let m = monitor(0, "first", 1920, 1080, 0, 0);
    assert_eq!(st.get_window_position(0, &m), (1520, 680));
}

#[test]
fn create_registers_exactly_one_instance_per_slot() {
    let mut st = DisplayState::new();
    let monitors = two_monitors();
    assert_eq!(st.begin_create_window(0, false), None);
    let plan = st
        .plan_window_open(0, false, &monitors, false)
        .expect("slot 0 must be plannable");
    let id = st.register_created_window(&plan);
    assert_eq!(id, "secondary_monitor_0");
    let listed = st.list_window_instances();
    assert_eq!(listed.len(), 1);
    assert_eq!(listed[0].monitor_index, 0);
    assert_eq!(listed[0].id, "secondary_monitor_0");
    assert_eq!(
        listed.iter().filter(|w| w.monitor_index == 0).count(),
        1
    );
}

#[test]
fn create_twice_returns_same_identifier_and_no_second_window() {
    let mut st = DisplayState::new();
    let monitors = two_monitors();
    assert_eq!(st.begin_create_window(0, false), None);
    let plan = st
        .plan_window_open(0, false, &monitors, false)
        .expect("slot 0 must be plannable");
    let first = st.register_created_window(&plan);
    // Second request: the registry entry exists and its window is alive,
    // so the fast path answers the same identifier without a new window.
    let second = st
        .begin_create_window(0, true)
        .expect("fast path must answer the existing identifier");
    assert_eq!(first, second);
    let listed = st.list_window_instances();
    assert_eq!(listed.iter().filter(|w| w.monitor_index == 0).count(), 1);
}

#[test]
fn stale_registry_entry_is_purged_before_recreation() {
    let mut st = DisplayState::new();
    let monitors = two_monitors();
    let plan = st
        .plan_window_open(1, false, &monitors, false)
        .expect("slot 1 must be plannable");
    st.register_created_window(&plan);
    // The underlying window disappeared: the entry is purged and the
    // creation proceeds from scratch.
    assert_eq!(st.begin_create_window(1, false), None);
    assert!(st.list_window_instances().is_empty());
}

#[test]
fn create_on_missing_monitor_fails_and_leaves_registry_unchanged() {
    let mut st = DisplayState::new();
    let monitors = two_monitors();
    let r = st.plan_window_open(2, false, &monitors, false);
    assert_eq!(
        r.err(),
        Some(DisplayError::MonitorIndexOutOfRange { requested: 2, available: 2 })
    );
    assert!(st.list_window_instances().is_empty());
}

#[test]
fn identifier_collision_is_surfaced() {
    let st = DisplayState::new();
    let monitors = two_monitors();
    let r = st.plan_window_open(0, true, &monitors, true);
    assert_eq!(
        r.err(),
        Some(DisplayError::IdentifierCollision { monitor_index: 0, is_primary: true })
    );
}

#[test]
fn close_window_on_monitor_empties_the_slot() {
    let mut st = DisplayState::new();
    let monitors = two_monitors();
    let plan = st
        .plan_window_open(0, false, &monitors, false)
        .expect("slot 0 must be plannable");
    st.register_created_window(&plan);
    let removed = st
        .close_window_on_monitor(0)
        .expect("the registered instance comes back");
    assert_eq!(removed.id, "secondary_monitor_0");
    assert!(st
        .list_window_instances()
        .iter()
        .all(|w| w.monitor_index != 0));
    // Closing an empty slot is a no-op.
    assert!(st.close_window_on_monitor(0).is_none());
}

#[test]
fn close_window_instance_by_identifier() {
    let mut st = DisplayState::new();
    let monitors = two_monitors();
    let plan = st
        .plan_window_open(1, true, &monitors, false)
        .expect("slot 1 must be plannable");
    let id = st.register_created_window(&plan);
    assert_eq!(id, "main_monitor_1");
    assert_eq!(st.close_window_instance(&id), Some(1));
    assert!(st.list_window_instances().is_empty());
    assert_eq!(st.close_window_instance(&id), None);
}

#[test]
fn reset_clears_instances_and_forgets_positions() {
    let mut st = DisplayState::new();
    let monitors = two_monitors();
    st.save_window_position(0, 77, 88, 400, 400);
    let plan = st
        .plan_window_open(0, false, &monitors, false)
        .expect("slot 0 must be plannable");
    st.register_created_window(&plan);
    st.reset_window_positions();
    assert!(st.list_window_instances().is_empty());
    // A later create uses the centered default, not a pre-reset position.
    let plan = st
        .plan_window_open(0, false, &monitors, false)
        .expect("slot 0 must be plannable");
    assert_eq!((plan.x, plan.y), (760, 340));
}

#[test]
fn two_monitor_scenario_places_windows_centered() {
    let mut st = DisplayState::new();
    let raw = vec![
        RawMonitor { name: Some(String::from("first")), width: 1920, height: 1080, x: 0, y: 0 },
        RawMonitor { name: Some(String::from("second")), width: 1080, height: 1920, x: 1920, y: 0 },
    ];
    let monitors = get_available_monitors(&raw);
    assert_eq!(monitors.len(), 2);
    assert_eq!(monitors[0].index, 0);
    assert_eq!(monitors[0].name, "first");
    assert_eq!((monitors[0].x, monitors[0].y), (0, 0));
    assert_eq!((monitors[0].width, monitors[0].height), (1920, 1080));
    assert_eq!(monitors[1].index, 1);
    assert_eq!(monitors[1].name, "second");
    assert_eq!((monitors[1].x, monitors[1].y), (1920, 0));
    assert_eq!((monitors[1].width, monitors[1].height), (1080, 1920));

    let plan0 = st
        .plan_window_open(0, false, &monitors, false)
        .expect("slot 0 must be plannable");
    assert_eq!((plan0.x, plan0.y), (760, 340));
    assert_eq!((plan0.width, plan0.height), (400, 400));
    st.register_created_window(&plan0);

    let plan1 = st
        .plan_window_open(1, false, &monitors, false)
        .expect("slot 1 must be plannable");
    assert_eq!((plan1.x, plan1.y), (2260, 760));
    st.register_created_window(&plan1);

    let listed = st.list_window_instances();
    assert_eq!(listed.len(), 2);
    assert_eq!(listed[0].monitor_index, 0);
    assert_eq!(listed[1].monitor_index, 1);
}

#[test]
fn planned_window_attributes_match_the_design() {
    let st = DisplayState::new();
    let monitors = two_monitors();
    let plan = st
        .plan_window_open(0, false, &monitors, false)
        .expect("slot 0 must be plannable");
    assert_eq!(plan.min_size, 200);
    assert_eq!(plan.max_size, 800);
    assert!(plan.resizable);
    assert!(plan.always_on_top);
    assert!(plan.transparent);
    assert!(!plan.decorations);
    assert!(!plan.shadow);
    assert!(plan.skip_taskbar);
    assert!(plan.accept_first_mouse);
}

#[test]
fn move_main_window_validates_but_never_moves() {
    let monitors = two_monitors();
    assert_eq!(move_main_window_to_monitor(1, &monitors), Ok(()));
    assert_eq!(
        move_main_window_to_monitor(5, &monitors),
        Err(DisplayError::MonitorIndexOutOfRange { requested: 5, available: 2 })
    );
}

#[test]
fn overlay_labels_are_selected_for_reset() {
    let labels = vec![
        String::from("main"),
        String::from("monitor_0"),
        String::from("main_monitor_2"),
        String::from("secondary_monitor_11"),
        String::from("settings"),
        String::from("not_a_monitor_3"),
    ];
    let selected = select_overlay_windows(&labels);
    assert_eq!(selected, vec![
        String::from("monitor_0"),
        String::from("main_monitor_2"),
        String::from("secondary_monitor_11"),
    ]);
}

#[test]
fn missing_monitor_name_gets_a_numbered_default() {
    let raw = vec![
        RawMonitor { name: None, width: 800, height: 600, x: 0, y: 0 },
        RawMonitor { name: None, width: 800, height: 600, x: 800, y: 0 },
    ];
    let monitors = get_available_monitors(&raw);
    assert_eq!(monitors[0].name, "monitor 1");
    assert_eq!(monitors[1].name, "monitor 2");
}

#[test]
fn startup_position_centers_on_first_monitor() {
    assert_eq!(main_window_startup_position(&two_monitors()), Some((760, 340)));
    assert_eq!(main_window_startup_position(&Vec::new()), None);
}

#[test]
fn startup_position_on_small_monitor_still_centers() {
    let small = vec![monitor(0, "tiny", 300, 200, 50, 60)];
    // The window is larger than the monitor: the centered position lies
    // above and left of the monitor's origin, halving toward zero.
    assert_eq!(main_window_startup_position(&small), Some((50 - 50, 60 - 100)));
}

#[test]
fn error_messages_name_the_failure() {
    let e = DisplayError::MonitorIndexOutOfRange { requested: 4, available: 2 };
    assert_eq!(
        e.message(),
        "monitor index out of range: requested index 4 but only 2 monitors are available"
    );
    let e = DisplayError::IdentifierCollision { monitor_index: 1, is_primary: false };
    assert_eq!(e.message(), "window id secondary_monitor_1 already exists");
    let e = DisplayError::PlatformQuery { detail: String::from("no display server") };
    assert_eq!(e.message(), "failed to query monitors: no display server");
    let e = DisplayError::WindowCreationFailed { detail: String::from("denied") };
    assert_eq!(e.message(), "failed to create window: denied");
}

#[test]
fn saved_position_of_other_slots_survives_a_close() {
    let mut st = DisplayState::new();
    st.save_window_position(0, 11, 12, 400, 400);
    st.save_window_position(1, 21, 22, 400, 400);
    st.close_window_on_monitor(0);
    let m = monitor(1, "second", 1920, 1080, 0, 0);
    assert_eq!(st.get_window_position(1, &m), (21, 22));
}
