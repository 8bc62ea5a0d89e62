use nice_view::draw::{DrawCommand, FontChoice};
use nice_view::event::{Event, RadioPhase};
use nice_view::logs::{LogError, LogScreen, LOG_LINES};

fn top_line(g: &LogScreen) -> String {
    g.line(0).expect("expected a line at the top of the ring")
}

#[test]
fn fresh_ring_is_empty() {
    let g = LogScreen::new();
    for i in 0..LOG_LINES {
        assert!(g.line(i).is_none());
    }
    assert!(g.line(LOG_LINES).is_none());
    assert!(g.render_plan().is_empty());
}

#[test]
fn connection_type_sequence_reads_top_to_bottom() {
    let mut g = LogScreen::new();
    assert!(g.process_event(&Event::ConnectionType(0)));
    assert!(g.process_event(&Event::ConnectionType(1)));
    assert!(g.process_event(&Event::ConnectionType(0)));
    assert_eq!(g.line(0).unwrap(), "conn USB");
    assert_eq!(g.line(1).unwrap(), "conn BLE");
    assert_eq!(g.line(2).unwrap(), "conn USB");
    assert!(g.line(3).is_none());
}

#[test]
fn every_recognized_event_formats_its_message() {
    let mut g = LogScreen::new();
    g.process_event(&Event::Battery(42));
    assert_eq!(top_line(&g), "bat42");
    g.process_event(&Event::Battery(0));
    assert_eq!(top_line(&g), "bat0");
    g.process_event(&Event::Battery(255));
    assert_eq!(top_line(&g), "bat255");
    g.process_event(&Event::ChargingState(true));
    assert_eq!(top_line(&g), "charge oui");
    g.process_event(&Event::ChargingState(false));
    assert_eq!(top_line(&g), "charge non");
    g.process_event(&Event::Layer(0));
    assert_eq!(top_line(&g), "layer base");
    g.process_event(&Event::Layer(1));
    assert_eq!(top_line(&g), "layer nav");
    g.process_event(&Event::Layer(2));
    assert_eq!(top_line(&g), "layer prog");
    g.process_event(&Event::Layer(3));
    assert_eq!(top_line(&g), "layer peri");
    g.process_event(&Event::Layer(9));
    assert_eq!(top_line(&g), "");
    g.process_event(&Event::SplitPeripheral(0, true));
    assert_eq!(top_line(&g), "peri oui");
    g.process_event(&Event::SplitCentral(false));
    assert_eq!(top_line(&g), "peri non");
    g.process_event(&Event::Sleep(true));
    assert_eq!(top_line(&g), "dodo oui");
    g.process_event(&Event::Sleep(false));
    assert_eq!(top_line(&g), "dodo non");
    g.process_event(&Event::BleState(0, RadioPhase::Advertising));
    assert_eq!(top_line(&g), "prof 0 advr");
    g.process_event(&Event::BleState(1, RadioPhase::Connected));
    assert_eq!(top_line(&g), "prof 1 conn");
    g.process_event(&Event::BleState(2, RadioPhase::Idle));
    assert_eq!(top_line(&g), "prof 2 none");
    g.process_event(&Event::BleState(7, RadioPhase::Idle));
    assert_eq!(top_line(&g), "none");
    g.process_event(&Event::BleProfile(1));
    assert_eq!(top_line(&g), "prof 1 ");
    g.process_event(&Event::ClearPeer);
    assert_eq!(top_line(&g), "clear peer");
}

#[test]
fn identical_events_log_twice() {
    let mut g = LogScreen::new();
    assert!(g.process_event(&Event::Battery(5)));
    assert!(g.process_event(&Event::Battery(5)));
    assert_eq!(g.line(0).unwrap(), "bat5");
    assert_eq!(g.line(1).unwrap(), "bat5");
}

#[test]
fn unrecognized_event_logs_nothing() {
    let mut g = LogScreen::new();
    assert!(!g.process_event(&Event::Other));
    assert!(g.line(0).is_none());
}

#[test]
fn oldest_line_leaves_first() {
    let mut g = LogScreen::new();
    for i in 0..LOG_LINES {
        assert!(g.process_event(&Event::Battery(i as u8)));
    }
    assert_eq!(g.line(0).unwrap(), "bat24");
    assert_eq!(g.line(LOG_LINES - 1).unwrap(), "bat0");
    assert!(g.process_event(&Event::Battery(25)));
    assert_eq!(g.line(0).unwrap(), "bat25");
    assert_eq!(g.line(LOG_LINES - 1).unwrap(), "bat1");
    assert!(g.line(LOG_LINES).is_none());
}

#[test]
fn overlong_line_is_dropped() {
    let mut g = LogScreen::new();
    let r = g.try_append(String::from("abcdefghijklmnopq"));
    assert_eq!(r, Err(LogError::LineTooLong));
    assert!(g.line(0).is_none());
    let r = g.try_append(String::from("abcdefghijklmnop"));
    assert_eq!(r, Ok(()));
    assert_eq!(g.line(0).unwrap(), "abcdefghijklmnop");
}

#[test]
fn plan_stacks_lines_top_down() {
    let mut g = LogScreen::new();
    g.process_event(&Event::ConnectionType(1));
    g.process_event(&Event::Sleep(false));
    let plan = g.render_plan();
    assert_eq!(plan.len(), 2);
    match &plan[0] {
        DrawCommand::Label { text, font, x, y } => {
            assert_eq!(text.as_str(), "dodo non");
            assert_eq!(*font, FontChoice::Small4x6);
            assert_eq!((*x, *y), (2, 6));
        }
        _ => panic!("expected a label command"),
    }
    match &plan[1] {
        DrawCommand::Label { text, font, x, y } => {
            assert_eq!(text.as_str(), "conn BLE");
            assert_eq!(*font, FontChoice::Small4x6);
            assert_eq!((*x, *y), (2, 12));
        }
        _ => panic!("expected a label command"),
    }
}
