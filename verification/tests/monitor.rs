use autolux::monitor::{poll_decision, PollDecision, TIME_WARP_MS};

#[test]
fn normal_cadence_reads_and_publishes() {
    assert!(matches!(poll_decision(0), PollDecision::ReadAndPublish));
    assert!(matches!(poll_decision(5_000), PollDecision::ReadAndPublish));
    assert!(matches!(
        poll_decision(TIME_WARP_MS),
        PollDecision::ReadAndPublish
    ));
}

#[test]
fn long_gap_restarts_the_session() {
    assert!(matches!(
        poll_decision(TIME_WARP_MS + 1),
        PollDecision::RestartSession
    ));
    assert!(matches!(
        poll_decision(u64::MAX),
        PollDecision::RestartSession
    ));
}
