use kwp2000_session::monitor::{tick_due, TICK_PERIOD_MS};
use kwp2000_session::session::KWP2000DiagSessionMsg;

#[test]
fn tick_period_is_250_ms() {
    assert_eq!(TICK_PERIOD_MS, 250);
}

#[test]
fn tick_due_only_with_open_gate_and_full_period() {
    assert!(tick_due(true, 250));
    assert!(tick_due(true, 1000));
    assert!(!tick_due(true, 249));
    assert!(!tick_due(true, 0));
    assert!(!tick_due(false, 250));
    assert!(!tick_due(false, 100000));
}

#[test]
fn is_back_holds_only_for_back() {
    assert!(KWP2000DiagSessionMsg::Back.is_back());
    assert!(!KWP2000DiagSessionMsg::ConnectECU.is_back());
    assert!(!KWP2000DiagSessionMsg::DisconnectECU.is_back());
    assert!(!KWP2000DiagSessionMsg::LoadErrorDefinition.is_back());
    assert!(!KWP2000DiagSessionMsg::ClearLogs.is_back());
    assert!(!KWP2000DiagSessionMsg::PollServer(std::time::Instant::now()).is_back());
}
