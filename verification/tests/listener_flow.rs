use deskmon::listeners::{
    find_window_index, key_transitions, mouse_button_to_event_data_from_str, mouse_transitions,
    release_event_flags, window_poll_step, ListenerRegistry, WindowDetails,
};
use deskmon::platform::{platform_name, platform_supported, polling_interval_ms, Platform};

fn window(id: u32) -> WindowDetails {
    WindowDetails {
        id,
        title: "Editor".to_string(),
        position: (0, 0, 800, 600),
        is_full_screen: false,
        process_name: "editor".to_string(),
        process_path: "/usr/bin/editor".to_string(),
        process_id: 4242,
        os: "linux".to_string(),
    }
}

#[test]
fn registry_hands_out_fresh_ids() {
    let mut reg = ListenerRegistry::new();
    let a = reg.start_listener();
    let b = reg.start_listener();
    assert_eq!(a, 1);
    assert_eq!(b, 2);
    assert!(reg.is_running(a));
    assert!(reg.is_running(b));
    assert!(!reg.is_running(3));
}

#[test]
fn stopping_a_listener_silences_it_and_nothing_else() {
    let mut reg = ListenerRegistry::new();
    let a = reg.start_listener();
    let b = reg.start_listener();
    assert!(reg.stop_listener(a));
    assert!(!reg.is_running(a));
    assert!(reg.is_running(b));
    // A stopped or unknown listener reports false.
    assert!(!reg.stop_listener(a));
    assert!(!reg.stop_listener(77));
    // Once the flag is down, a poll step emits nothing, whatever is polled.
    let (_, event) = window_poll_step(reg.is_running(a), 0, Some(window(5)));
    assert!(event.is_none());
}

#[test]
fn window_poll_emits_only_on_change() {
    let (last, event) = window_poll_step(true, 0, Some(window(5)));
    assert_eq!(last, 5);
    assert_eq!(event.unwrap().id, 5);

    let (last, event) = window_poll_step(true, 5, Some(window(5)));
    assert_eq!(last, 5);
    assert!(event.is_none());

    let (last, event) = window_poll_step(true, 5, None);
    assert_eq!(last, 5);
    assert!(event.is_none());
}

#[test]
fn windows_are_found_by_identifier() {
    let windows = vec![window(3), window(8), window(5)];
    assert_eq!(find_window_index(&windows, 8), Some(1));
    assert_eq!(find_window_index(&windows, 9), None);
    assert_eq!(find_window_index(&Vec::new(), 1), None);
}

#[test]
fn polling_intervals_per_platform() {
    assert_eq!(polling_interval_ms(Platform::Windows), 300);
    assert_eq!(polling_interval_ms(Platform::MacOs), 500);
    assert_eq!(polling_interval_ms(Platform::Linux), 700);
    assert_eq!(polling_interval_ms(Platform::Other), 700);
}

#[test]
fn platform_names_and_support() {
    assert_eq!(platform_name(Platform::Windows), "windows");
    assert_eq!(platform_name(Platform::MacOs), "macos");
    assert_eq!(platform_name(Platform::Linux), "linux");
    assert_eq!(platform_name(Platform::Other), "unknown");
    assert!(platform_supported(Platform::Windows));
    assert!(platform_supported(Platform::MacOs));
    assert!(platform_supported(Platform::Linux));
    assert!(!platform_supported(Platform::Other));
}

#[test]
fn key_diffs_become_press_and_release_events() {
    let previous = vec!["a".to_string(), "b".to_string()];
    let current = vec!["b".to_string(), "c".to_string()];
    let events = key_transitions(&previous, &current);
    assert_eq!(events.len(), 2);
    assert_eq!(events[0].key, "c");
    assert!(events[0].is_key_press);
    assert_eq!(events[1].key, "a");
    assert!(!events[1].is_key_press);

    let none = key_transitions(&current, &current);
    assert!(none.is_empty());
}

#[test]
fn overlapping_polls_emit_each_key_once() {
    let previous = vec!["a".to_string(), "b".to_string(), "c".to_string()];
    let current = vec!["c".to_string(), "d".to_string(), "e".to_string()];
    let events = key_transitions(&previous, &current);
    // Presses for d and e, releases for a and b — one event each.
    assert_eq!(events.len(), 4);
    for i in 0..events.len() {
        for j in (i + 1)..events.len() {
            assert!(
                !(events[i].key == events[j].key
                    && events[i].is_key_press == events[j].is_key_press)
            );
        }
    }
    assert_eq!(events.iter().filter(|e| e.is_key_press).count(), 2);
    assert_eq!(events.iter().filter(|e| !e.is_key_press).count(), 2);
}

#[test]
fn raw_button_descriptions_are_normalized() {
    assert_eq!(
        mouse_button_to_event_data_from_str("Left"),
        ("left".to_string(), true, false)
    );
    assert_eq!(
        mouse_button_to_event_data_from_str("RightButton"),
        ("right".to_string(), false, true)
    );
    assert_eq!(
        mouse_button_to_event_data_from_str("MIDDLE"),
        ("middle".to_string(), false, false)
    );
    assert_eq!(
        mouse_button_to_event_data_from_str("X2"),
        ("x2".to_string(), false, false)
    );
}

#[test]
fn release_flags_follow_the_friendly_name() {
    assert_eq!(release_event_flags("left"), (true, false));
    assert_eq!(release_event_flags("right"), (false, true));
    assert_eq!(release_event_flags("middle"), (false, false));
    assert_eq!(release_event_flags("x1"), (false, false));
}

#[test]
fn mouse_diffs_carry_flags_and_coordinates() {
    let previous = vec!["left".to_string()];
    let current = vec![("right".to_string(), false, true)];
    let events = mouse_transitions(&previous, &current, (10, 20));
    assert_eq!(events.len(), 2);

    assert_eq!(events[0].button, "right");
    assert!(events[0].is_button_press);
    assert_eq!(events[0].coords, (10, 20));
    assert!(!events[0].is_left_click);
    assert!(events[0].is_right_click);

    assert_eq!(events[1].button, "left");
    assert!(!events[1].is_button_press);
    assert_eq!(events[1].coords, (10, 20));
    assert!(events[1].is_left_click);
    assert!(!events[1].is_right_click);
}
