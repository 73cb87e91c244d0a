use tty_relay::session::{RawSession, SessionPhase};

#[test]
fn session_walks_its_phases_in_order() {
    let mut session = RawSession::new();
    assert_eq!(session.phase, SessionPhase::Pristine);
    session.enter_raw();
    assert_eq!(session.phase, SessionPhase::Raw);
    session.restore();
    assert_eq!(session.phase, SessionPhase::Restored);
}
