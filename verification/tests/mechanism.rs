use intes::bus::{Bus, PostError, ReportField};
use intes::context::ButtonName;
use intes::events::{NativeEvent, PhysicalButton, SyntheticEvent};
use intes::tab::{ActionButton, MouseTab};

fn ready_tab() -> MouseTab {
    let mut tab = MouseTab::new(500);
    tab.activate();
    tab
}

#[test]
fn press_and_release_report_position_and_button() {
    // Press at (120, 80) with the left button, then release: the context
    // becomes {x: 120, y: 80, button: Left} and the information field
    // displays it.
    let mut tab = ready_tab();
    assert_eq!(
        tab.handle_native(&NativeEvent::Push { button: PhysicalButton::Left, x: 120, y: 80 }),
        Ok(true)
    );
    assert_eq!(tab.handle_native(&NativeEvent::Released), Ok(true));
    assert_eq!(tab.context().mouse_x(), 120);
    assert_eq!(tab.context().mouse_y(), 80);
    assert_eq!(tab.context().last_button(), ButtonName::Left);
    assert_eq!(tab.info_field_text(), "X: 120, y: 80, button: Left".to_string());
    assert_eq!(tab.action_field_text(), "Mouse up".to_string());
}

#[test]
fn action_buttons_update_only_the_action_field() {
    let mut tab = ready_tab();
    let info_before = tab.info_field_text();
    assert_eq!(tab.click_action_button(ActionButton::ButtonA), Ok(true));
    assert_eq!(tab.action_field_text(), "Button A clicked".to_string());
    assert_eq!(tab.info_field_text(), info_before);
    assert_eq!(tab.click_action_button(ActionButton::ButtonB), Ok(true));
    assert_eq!(tab.action_field_text(), "Button B clicked".to_string());
    assert_eq!(tab.info_field_text(), info_before);
    assert_eq!(tab.context().mouse_x(), 0);
    assert_eq!(tab.context().mouse_y(), 0);
}

#[test]
fn moves_track_coordinates() {
    let mut tab = ready_tab();
    assert_eq!(tab.handle_native(&NativeEvent::Move { x: 10, y: 20 }), Ok(true));
    assert_eq!(tab.context().mouse_x(), 10);
    assert_eq!(tab.context().mouse_y(), 20);
    assert_eq!(tab.info_field_text(), "X: 10, y: 20".to_string());
    assert_eq!(tab.action_field_text(), "Mouse move".to_string());
    assert_eq!(tab.handle_native(&NativeEvent::Move { x: -3, y: 450 }), Ok(true));
    assert_eq!(tab.context().mouse_x(), -3);
    assert_eq!(tab.context().mouse_y(), 450);
    assert_eq!(tab.info_field_text(), "X: -3, y: 450".to_string());
}

#[test]
fn unrelated_synthetic_events_leave_coordinates_alone() {
    let mut tab = ready_tab();
    assert_eq!(tab.handle_native(&NativeEvent::Move { x: 33, y: 44 }), Ok(true));
    assert_eq!(tab.click_action_button(ActionButton::ButtonA), Ok(true));
    assert_eq!(tab.post(SyntheticEvent::MouseIn), Ok(false));
    assert_eq!(tab.context().mouse_x(), 33);
    assert_eq!(tab.context().mouse_y(), 44);
}

#[test]
fn each_physical_button_records_its_name() {
    let cases = [
        (PhysicalButton::Left, ButtonName::Left, "Left"),
        (PhysicalButton::Middle, ButtonName::Middle, "Middle"),
        (PhysicalButton::Right, ButtonName::Right, "Right"),
        (PhysicalButton::Other, ButtonName::NoButton, ""),
    ];
    for (physical, name, label) in cases {
        let mut tab = ready_tab();
        assert_eq!(
            tab.handle_native(&NativeEvent::Push { button: physical, x: 5, y: 6 }),
            Ok(true)
        );
        assert_eq!(tab.context().last_button(), name);
        assert_eq!(name.label(), label);
        let expected = format!("X: 5, y: 6, button: {}", label);
        assert_eq!(tab.info_field_text(), expected);
    }
}

#[test]
fn enter_and_leave_reset_the_action_label() {
    let mut tab = ready_tab();
    assert_eq!(tab.click_action_button(ActionButton::ButtonA), Ok(true));
    assert_eq!(tab.action_field_text(), "Button A clicked".to_string());
    assert_eq!(tab.handle_native(&NativeEvent::Enter), Ok(true));
    assert_eq!(tab.action_field_text(), "".to_string());
    assert_eq!(tab.context().last_action_label(), "".to_string());

    assert_eq!(tab.click_action_button(ActionButton::ButtonB), Ok(true));
    assert_eq!(tab.action_field_text(), "Button B clicked".to_string());
    assert_eq!(tab.handle_native(&NativeEvent::Leave), Ok(true));
    assert_eq!(tab.action_field_text(), "".to_string());
    assert_eq!(tab.context().last_action_label(), "".to_string());
}

#[test]
fn posting_twice_equals_posting_once() {
    let codes = [
        SyntheticEvent::MouseMove,
        SyntheticEvent::MouseDown,
        SyntheticEvent::MouseUp,
        SyntheticEvent::MouseOut,
        SyntheticEvent::MouseIn,
        SyntheticEvent::Button1Click,
        SyntheticEvent::Button2Click,
    ];
    for code in codes {
        let mut tab = ready_tab();
        tab.handle_native(&NativeEvent::Move { x: 9, y: 11 }).unwrap();
        tab.post(code).unwrap();
        let action_once = tab.action_field_text();
        let info_once = tab.info_field_text();
        let label_once = tab.context().last_action_label();
        tab.post(code).unwrap();
        assert_eq!(tab.action_field_text(), action_once);
        assert_eq!(tab.info_field_text(), info_once);
        assert_eq!(tab.context().last_action_label(), label_once);
        assert_eq!(tab.context().mouse_x(), 9);
        assert_eq!(tab.context().mouse_y(), 11);
    }
}

#[test]
fn posting_before_the_loop_runs_fails_loudly() {
    let mut tab = MouseTab::new(500);
    assert!(!tab.is_ready());
    assert_eq!(tab.post(SyntheticEvent::MouseDown), Err(PostError::LoopNotRunning));
    assert_eq!(
        tab.handle_native(&NativeEvent::Enter),
        Err(PostError::LoopNotRunning)
    );
    assert_eq!(tab.click_action_button(ActionButton::ButtonA), Err(PostError::LoopNotRunning));
    // Nothing changed.
    assert_eq!(tab.action_field_text(), "".to_string());
    assert_eq!(tab.info_field_text(), "".to_string());
    // An event the adapter does not react to emits nothing and still passes
    // through.
    assert_eq!(tab.handle_native(&NativeEvent::Other), Ok(false));
    tab.activate();
    assert!(tab.is_ready());
    assert_eq!(tab.post(SyntheticEvent::MouseDown), Ok(true));
}

#[test]
fn adapter_consumes_exactly_what_it_reacts_to() {
    let mut tab = ready_tab();
    assert_eq!(
        tab.handle_native(&NativeEvent::Push { button: PhysicalButton::Right, x: 1, y: 2 }),
        Ok(true)
    );
    assert_eq!(tab.handle_native(&NativeEvent::Released), Ok(true));
    assert_eq!(tab.handle_native(&NativeEvent::Enter), Ok(true));
    assert_eq!(tab.handle_native(&NativeEvent::Leave), Ok(true));
    assert_eq!(tab.handle_native(&NativeEvent::Move { x: 1, y: 2 }), Ok(true));
    assert_eq!(tab.handle_native(&NativeEvent::Other), Ok(false));
}

#[test]
fn nobody_consumes_enter_and_leave_codes() {
    let mut tab = ready_tab();
    assert_eq!(tab.post(SyntheticEvent::MouseIn), Ok(false));
    assert_eq!(tab.post(SyntheticEvent::MouseOut), Ok(false));
    assert_eq!(tab.post(SyntheticEvent::MouseMove), Ok(true));
    assert_eq!(tab.post(SyntheticEvent::Button1Click), Ok(true));
}

#[test]
fn subscribers_observe_in_registration_order() {
    let mut bus = Bus::new();
    bus.subscribe(ReportField::action_row());
    bus.subscribe(ReportField::info_row());
    assert_eq!(bus.subscriber_count(), 2);
    assert!(!bus.ready());
    let mut ctx = intes::context::ActionContext::new();
    assert_eq!(
        bus.post(SyntheticEvent::MouseDown, &mut ctx),
        Err(PostError::LoopNotRunning)
    );
    bus.activate();
    assert_eq!(bus.post(SyntheticEvent::MouseDown, &mut ctx), Ok(true));
    assert_eq!(bus.subscriber(0).value(), "Mouse down".to_string());
    assert_eq!(
        bus.subscriber(1).value(),
        "X: 0, y: 0, button: ".to_string()
    );
    assert_eq!(ctx.last_action_label(), "Mouse down".to_string());
}
