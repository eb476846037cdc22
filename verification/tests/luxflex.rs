use luxflex::bridge::{
    consume_events, on_control_event, poll_bridge, request_quit, request_show_hide, BridgeAction,
    ControlEvent,
};
use luxflex::controller::{Controller, Effect, Message};
use luxflex::dispatch::{dispatch_brightness, Display};
use luxflex::mapper::map_intensity;
use luxflex::overlay::{OverlayAction, OverlayOp, OverlayState};
use luxflex::widestr::wide_string;

#[test]
fn mapper_lower_half() {
    for level in 0u8..=50 {
        assert_eq!(map_intensity(level), (2 * level, 0));
    }
}

#[test]
fn mapper_upper_half() {
    for level in 51u8..=100 {
        assert_eq!(map_intensity(level), (100, 5 * (level - 50)));
    }
}

#[test]
fn mapper_boundary_continuity() {
    assert_eq!(map_intensity(50), (100, 0));
    assert_eq!(map_intensity(51), (100, 5));
}

#[test]
fn mapper_scenarios() {
    assert_eq!(map_intensity(0), (0, 0));
    assert_eq!(map_intensity(100), (100, 250));
    assert_eq!(map_intensity(30), (60, 0));
    assert_eq!(map_intensity(80), (100, 150));
}

#[test]
fn mapper_clamps_out_of_range_input() {
    assert_eq!(map_intensity(101), (100, 250));
    assert_eq!(map_intensity(255), (100, 250));
}

#[test]
fn overlay_starts_transparent_and_hidden() {
    let s = OverlayState::new();
    assert_eq!(s.alpha, 0);
    assert!(!s.visible);
}

#[test]
fn overlay_alpha_while_hidden_takes_effect_silently() {
    let mut s = OverlayState::new();
    let act = s.set_alpha(150);
    assert_eq!(act, OverlayAction::SetOpacity(150));
    assert_eq!(s.alpha, 150);
    assert!(!s.visible);
    let act = s.toggle_visibility();
    assert_eq!(act, OverlayAction::Show);
    assert_eq!(s.alpha, 150);
    assert!(s.visible);
}

#[test]
fn overlay_toggle_twice_returns_to_start() {
    let mut s = OverlayState::new();
    assert_eq!(s.toggle_visibility(), OverlayAction::Show);
    assert_eq!(s.toggle_visibility(), OverlayAction::Hide);
    assert_eq!(s, OverlayState::new());
}

#[test]
fn overlay_alpha_and_toggle_commute() {
    let mut a = OverlayState::new();
    let mut b = OverlayState::new();
    let acts_a = a.apply_ops(&vec![OverlayOp::SetAlpha(100), OverlayOp::Toggle]);
    let acts_b = b.apply_ops(&vec![OverlayOp::Toggle, OverlayOp::SetAlpha(100)]);
    assert_eq!(a, b);
    assert_eq!(acts_a, vec![OverlayAction::SetOpacity(100), OverlayAction::Show]);
    assert_eq!(acts_b, vec![OverlayAction::Show, OverlayAction::SetOpacity(100)]);
}

#[test]
fn overlay_outcome_depends_on_latest_values_only() {
    let mut a = OverlayState::new();
    let mut b = OverlayState::new();
    a.apply_ops(&vec![
        OverlayOp::SetAlpha(10),
        OverlayOp::Toggle,
        OverlayOp::SetAlpha(90),
        OverlayOp::Toggle,
        OverlayOp::Toggle,
    ]);
    b.apply_ops(&vec![
        OverlayOp::Toggle,
        OverlayOp::SetAlpha(90),
    ]);
    assert_eq!(a, b);
    assert_eq!(a.alpha, 90);
    assert!(a.visible);
}

#[test]
fn dispatcher_isolates_a_failing_display() {
    let mut displays = vec![
        Display { brightness: 10, responsive: true },
        Display { brightness: 20, responsive: false },
        Display { brightness: 30, responsive: true },
    ];
    let applied = dispatch_brightness(&mut displays, 70);
    assert_eq!(applied, 2);
    assert_eq!(displays[0], Display { brightness: 70, responsive: true });
    assert_eq!(displays[1], Display { brightness: 20, responsive: false });
    assert_eq!(displays[2], Display { brightness: 70, responsive: true });
}

#[test]
fn dispatcher_is_idempotent() {
    let mut displays = vec![
        Display { brightness: 5, responsive: true },
        Display { brightness: 99, responsive: false },
    ];
    dispatch_brightness(&mut displays, 60);
    let once = displays.clone();
    dispatch_brightness(&mut displays, 60);
    assert_eq!(displays, once);
}

#[test]
fn dispatcher_with_no_displays_is_a_noop() {
    let mut displays: Vec<Display> = vec![];
    let applied = dispatch_brightness(&mut displays, 40);
    assert_eq!(applied, 0);
    assert!(displays.is_empty());
}

#[test]
fn bridge_action_per_event() {
    assert_eq!(on_control_event(Some(ControlEvent::ShowHide)), BridgeAction::ToggleVisibility);
    assert_eq!(on_control_event(Some(ControlEvent::Quit)), BridgeAction::Terminate);
    assert_eq!(on_control_event(None), BridgeAction::Stop);
}

#[test]
fn bridge_two_toggles_before_terminate() {
    let events = vec![ControlEvent::ShowHide, ControlEvent::ShowHide, ControlEvent::Quit];
    let log = consume_events(&events);
    assert_eq!(
        log,
        vec![
            BridgeAction::ToggleVisibility,
            BridgeAction::ToggleVisibility,
            BridgeAction::Terminate,
        ]
    );
}

#[test]
fn bridge_nothing_observed_after_quit() {
    let events = vec![ControlEvent::Quit, ControlEvent::ShowHide];
    let log = consume_events(&events);
    assert_eq!(log, vec![BridgeAction::Terminate]);
}

#[test]
fn bridge_empty_stream_yields_nothing() {
    let events: Vec<ControlEvent> = vec![];
    assert!(consume_events(&events).is_empty());
}

#[test]
fn channel_delivers_in_send_order() {
    let (tx, rx) = crossbeam_channel::unbounded::<ControlEvent>();
    assert_eq!(request_show_hide(&tx), (ControlEvent::ShowHide, true));
    assert_eq!(request_show_hide(&tx), (ControlEvent::ShowHide, true));
    assert_eq!(request_quit(&tx), (ControlEvent::Quit, true));
    assert_eq!(
        poll_bridge(&rx),
        (Some(ControlEvent::ShowHide), BridgeAction::ToggleVisibility)
    );
    assert_eq!(
        poll_bridge(&rx),
        (Some(ControlEvent::ShowHide), BridgeAction::ToggleVisibility)
    );
    assert_eq!(poll_bridge(&rx), (Some(ControlEvent::Quit), BridgeAction::Terminate));
}

#[test]
fn channel_closed_means_stop() {
    let (tx, rx) = crossbeam_channel::unbounded::<ControlEvent>();
    drop(tx);
    assert_eq!(poll_bridge(&rx), (None, BridgeAction::Stop));
}

#[test]
fn channel_without_consumer_reports_undelivered() {
    let (tx, rx) = crossbeam_channel::unbounded::<ControlEvent>();
    drop(rx);
    assert_eq!(request_show_hide(&tx), (ControlEvent::ShowHide, false));
    assert_eq!(request_quit(&tx), (ControlEvent::Quit, false));
}

#[test]
fn controller_starts_at_midpoint() {
    let c = Controller::new();
    assert_eq!(c.level, 50);
    assert_eq!(c.overlay, OverlayState::new());
    assert!(c.running);
}

#[test]
fn controller_title_and_view() {
    let mut c = Controller::new();
    assert_eq!(c.title(), "LuxFlex");
    let v = c.view();
    assert_eq!(v.label, "Brightness/Dimness");
    assert_eq!((v.min, v.level, v.max), (0, 50, 100));
    c.update(Message::SliderChanged(73));
    assert_eq!(c.view().level, 73);
}

#[test]
fn controller_slider_event_orders_brightness_before_overlay() {
    let mut c = Controller::new();
    let effects = c.update(Message::SliderChanged(80));
    assert_eq!(
        effects,
        vec![
            Effect::ApplyBrightness(100),
            Effect::Overlay(OverlayAction::SetOpacity(150)),
        ]
    );
    assert_eq!(c.level, 80);
    assert_eq!(c.overlay.alpha, 150);
    assert!(!c.overlay.visible);
}

#[test]
fn controller_slider_event_lower_half() {
    let mut c = Controller::new();
    let effects = c.update(Message::SliderChanged(30));
    assert_eq!(
        effects,
        vec![Effect::ApplyBrightness(60), Effect::Overlay(OverlayAction::SetOpacity(0))]
    );
}

#[test]
fn controller_slider_and_toggle_commute() {
    let mut a = Controller::new();
    a.update(Message::SliderChanged(80));
    a.update(Message::ToggleVisibility);
    let mut b = Controller::new();
    b.update(Message::ToggleVisibility);
    b.update(Message::SliderChanged(80));
    assert_eq!(a, b);
    assert_eq!(a.overlay.alpha, 150);
    assert!(a.overlay.visible);
}

#[test]
fn controller_bridge_toggle_flips_overlay() {
    let mut c = Controller::new();
    let effects = c.on_bridge_action(BridgeAction::ToggleVisibility);
    assert_eq!(effects, vec![Effect::Overlay(OverlayAction::Show)]);
    assert!(c.overlay.visible);
    let effects = c.on_bridge_action(BridgeAction::ToggleVisibility);
    assert_eq!(effects, vec![Effect::Overlay(OverlayAction::Hide)]);
    assert!(!c.overlay.visible);
}

#[test]
fn controller_terminate_is_terminal() {
    let mut c = Controller::new();
    let effects = c.on_bridge_action(BridgeAction::Terminate);
    assert!(effects.is_empty());
    assert!(!c.running);
    let after = c;
    assert!(c.update(Message::SliderChanged(10)).is_empty());
    assert!(c.on_bridge_action(BridgeAction::ToggleVisibility).is_empty());
    assert_eq!(c, after);
}

#[test]
fn controller_stopped_bridge_changes_nothing() {
    let mut c = Controller::new();
    let before = c;
    let effects = c.on_bridge_action(BridgeAction::Stop);
    assert!(effects.is_empty());
    assert_eq!(c, before);
}

#[test]
fn wide_string_of_window_class_name() {
    assert_eq!(
        wide_string("Static"),
        vec![0x53, 0x74, 0x61, 0x74, 0x69, 0x63, 0]
    );
}

#[test]
fn wide_string_of_empty_string_is_just_nul() {
    assert_eq!(wide_string(""), vec![0]);
}

#[test]
fn wide_string_matches_std_utf16_encoding() {
    for s in ["LuxFlex", "héllo", "\u{1D11E} clef", "ß\u{10348}"] {
        let expected: Vec<u16> = s.encode_utf16().chain(std::iter::once(0)).collect();
        assert_eq!(wide_string(s), expected);
    }
}

#[test]
fn wide_string_encodes_surrogate_pairs() {
    assert_eq!(wide_string("\u{1D11E}"), vec![0xD834, 0xDD1E, 0]);
}
