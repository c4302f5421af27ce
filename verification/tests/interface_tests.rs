use etherdream::address::SocketAddress;
use etherdream::generators::GeneratorId;
use etherdream::scene::{Builder, BuilderError, SceneEvent, SceneHook};
use etherdream::ui::{
    device_status, invoke, on_list_key, parse_port, reselect, validate_port, Action, DeviceStatus, ListKey, SceneId,
};

fn addr(port: u16) -> SocketAddress {
    SocketAddress::V4 { ip: 0x0A00_0001, port }
}

fn hooks_text(hooks: &[SceneHook<&'static str>]) -> Vec<String> {
    hooks
        .iter()
        .map(|h| match h {
            SceneHook::Enter(id) => format!("enter {}", id),
            SceneHook::Exit(id) => format!("exit {}", id),
        })
        .collect()
}

#[test]
fn a_builder_without_scenes_fails() {
    let builder = Builder::<&'static str>::new();
    match builder.build() {
        Err(e) => {
            assert_eq!(e, BuilderError::SceneRequired);
            assert_eq!(e.message(), "At least one scene is required.");
        },
        Ok(_) => panic!("a builder without scenes built"),
    }
}

#[test]
fn the_first_scene_added_is_the_current_one() {
    let mut builder = Builder::new();
    assert!(builder.add_scene("list"));
    assert!(builder.add_scene("device"));
    let stack = match builder.build() {
        Ok(stack) => stack,
        Err(_) => panic!("no stack"),
    };
    assert_eq!(stack.current(), Some("list"));
}

#[test]
fn scene_events_move_the_stack_and_run_hooks() {
    let mut builder = Builder::new();
    builder.add_scene("list");
    let mut stack = match builder.build() {
        Ok(stack) => stack,
        Err(_) => panic!("no stack"),
    };

    let hooks = stack.apply(SceneEvent::Push("connect"), true);
    assert_eq!(hooks_text(&hooks), vec!["exit list", "enter connect"]);
    assert_eq!(stack.current(), Some("connect"));

    // A push of a scene that was never added does nothing.
    let hooks = stack.apply(SceneEvent::Push("help"), false);
    assert!(hooks.is_empty());
    assert_eq!(stack.current(), Some("connect"));

    let hooks = stack.apply(SceneEvent::Pop, true);
    assert_eq!(hooks_text(&hooks), vec!["exit connect", "enter list"]);
    assert_eq!(stack.current(), Some("list"));

    stack.apply(SceneEvent::Push("device"), true);
    stack.apply(SceneEvent::Push("connect"), true);
    let hooks = stack.apply(SceneEvent::Switch("list"), true);
    assert_eq!(hooks_text(&hooks), vec!["exit connect", "exit device", "exit list", "enter list"]);
    assert_eq!(stack.current(), Some("list"));

    let hooks = stack.apply(SceneEvent::NoAction, true);
    assert!(hooks.is_empty());

    let hooks = stack.apply(SceneEvent::Pop, true);
    assert_eq!(hooks_text(&hooks), vec!["exit list"]);
    assert_eq!(stack.current(), None);
    let hooks = stack.apply(SceneEvent::Pop, true);
    assert!(hooks.is_empty());
}

#[test]
fn actions_select_and_connect_devices() {
    let mut current = None;
    let r = invoke(&mut current, Action::SelectDevice(addr(1)), false);
    assert_eq!(current, Some(addr(1)));
    assert!(matches!(r.event, SceneEvent::Switch(SceneId::Device)));
    assert!(!r.connect);

    let r = invoke(&mut current, Action::Connect(7765), true);
    assert!(matches!(r.event, SceneEvent::NoAction));
    assert!(r.connect);
    assert_eq!(current, Some(addr(1)));

    let r = invoke(&mut current, Action::Connect(7765), false);
    assert!(matches!(r.event, SceneEvent::Pop));
    assert!(!r.connect);

    let r = invoke(&mut current, Action::DeselectDevice, true);
    assert_eq!(current, None);
    assert!(matches!(r.event, SceneEvent::Switch(SceneId::List)));
}

#[test]
fn arrow_keys_wrap_around_the_device_list() {
    let rows = [addr(1), addr(2), addr(3)];
    let r = on_list_key(ListKey::Down, Some(2), 3, &rows);
    assert!(r.handled);
    assert_eq!(r.selected, Some(0));
    let r = on_list_key(ListKey::Down, Some(0), 3, &rows);
    assert_eq!(r.selected, Some(1));
    let r = on_list_key(ListKey::Up, Some(0), 3, &rows);
    assert_eq!(r.selected, Some(0));
    let r = on_list_key(ListKey::Up, Some(2), 3, &rows);
    assert_eq!(r.selected, Some(1));
    // Without devices, or without a selection, nothing moves, but the key is handled.
    let r = on_list_key(ListKey::Down, Some(1), 0, &rows);
    assert!(r.handled);
    assert_eq!(r.selected, Some(1));
    let r = on_list_key(ListKey::Down, None, 3, &rows);
    assert_eq!(r.selected, None);
}

#[test]
fn enter_selects_the_device_on_the_selected_row() {
    let rows = [addr(1), addr(2)];
    let r = on_list_key(ListKey::Enter, Some(1), 2, &rows);
    assert!(r.handled);
    assert_eq!(r.action, Some(Action::SelectDevice(addr(2))));
    let r = on_list_key(ListKey::Enter, Some(5), 2, &rows);
    assert!(!r.handled);
    assert_eq!(r.action, None);
    let r = on_list_key(ListKey::Other, Some(0), 2, &rows);
    assert!(!r.handled);
}

#[test]
fn the_selection_follows_its_device_when_the_list_changes() {
    let old_rows = [addr(2), addr(4)];
    let new_rows = [addr(1), addr(2), addr(3), addr(4)];
    assert_eq!(reselect(Some(1), &old_rows, &new_rows), Some(3));
    assert_eq!(reselect(Some(0), &old_rows, &new_rows), Some(1));
    // The selected device is gone: the row number stays, held to the list.
    let fewer = [addr(2)];
    assert_eq!(reselect(Some(1), &old_rows, &fewer), Some(1));
    assert_eq!(reselect(Some(0), &[addr(9)], &new_rows), Some(0));
    assert_eq!(reselect(None, &old_rows, &new_rows), Some(0));
    assert_eq!(reselect(Some(1), &old_rows, &[]), None);
}

#[test]
fn generators_are_named_in_any_case() {
    assert_eq!(GeneratorId::from_str("xs"), Some(GeneratorId::Xs));
    assert_eq!(GeneratorId::from_str("Xs"), Some(GeneratorId::Xs));
    assert_eq!(GeneratorId::from_str("XS"), Some(GeneratorId::Xs));
    assert_eq!(GeneratorId::from_str("xs "), None);
    assert_eq!(GeneratorId::from_str("demo"), None);
    assert_eq!(GeneratorId::from_uppercase("xs"), None);
    assert_eq!(GeneratorId::from_uppercase("XS"), Some(GeneratorId::Xs));
}

#[test]
fn a_port_is_read_as_u16_reads_it() {
    let cases = [
        "7765", "0", "65535", "65536", "+80", "-1", "-0", "", "+", "++1", " 80", "80 ", "0080", "99999999999", "8o",
        "\u{0661}", "+65535", "65540",
    ];
    for text in cases {
        assert_eq!(parse_port(text), text.parse::<u16>().ok(), "reading {:?}", text);
        assert_eq!(validate_port(text), text.parse::<u16>().is_ok(), "validating {:?}", text);
    }
    assert_eq!(parse_port("7765"), Some(7765));
    assert_eq!(parse_port("+80"), Some(80));
    assert_eq!(parse_port("65536"), None);
}

#[test]
fn a_device_shows_whether_it_is_connected_and_playing() {
    assert_eq!(device_status(false, None), DeviceStatus::Disconnected);
    assert_eq!(device_status(true, None), DeviceStatus::Connected);
    assert_eq!(device_status(false, Some(false)), DeviceStatus::Connected);
    assert_eq!(device_status(true, Some(true)), DeviceStatus::Playing);
    assert_eq!(DeviceStatus::Playing.label(), "Playing");
    assert_eq!(DeviceStatus::Disconnected.label(), "Disconnected");
    assert_eq!(DeviceStatus::Connected.label(), "Connected");
}
