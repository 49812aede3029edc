use subquery_deploy::poll::{PollControl, StatusPoller};
use subquery_deploy::request::DeploymentStatus;

fn status(total_entities: u64, target_block: u64, processing_block: u64) -> DeploymentStatus {
    DeploymentStatus { total_entities, target_block, processing_block }
}

#[test]
fn non_rolling_poll_stops_after_exactly_one_tick() {
    let mut p = StatusPoller::new(false, 60);
    let (line, control) = p.tick(&status(100, 200, 50));
    assert_eq!(
        line,
        "total_entities: 100 target_block: 200 processing_block: 50 percent: 25.00% "
    );
    assert_eq!(control, PollControl::Stop);
    assert_eq!(p.ticks(), 1);
}

#[test]
fn rolling_poll_counts_its_ticks_in_order() {
    let mut p = StatusPoller::new(true, 0);
    let responses = [status(10, 100, 25), status(12, 100, 50), status(15, 100, 75)];
    let mut lines = Vec::new();
    for s in &responses {
        let (line, control) = p.tick(s);
        assert_eq!(control, PollControl::SleepThenRepeat { seconds: 0 });
        lines.push(line);
    }
    assert_eq!(
        lines,
        vec![
            "total_entities: 10 target_block: 100 processing_block: 25 percent: 25.00% [1] ",
            "total_entities: 12 target_block: 100 processing_block: 50 percent: 50.00% [2] ",
            "total_entities: 15 target_block: 100 processing_block: 75 percent: 75.00% [3] ",
        ]
    );
}

#[test]
fn rolling_poll_repeats_with_the_configured_interval() {
    let mut p = StatusPoller::new(true, 30);
    let (_, control) = p.tick(&status(1, 2, 1));
    assert_eq!(control, PollControl::SleepThenRepeat { seconds: 30 });
    let (_, control) = p.tick(&status(1, 2, 2));
    assert_eq!(control, PollControl::SleepThenRepeat { seconds: 30 });
    assert_eq!(p.ticks(), 2);
}

#[test]
fn zero_target_block_renders_a_non_finite_percent() {
    let mut p = StatusPoller::new(false, 0);
    let (line, _) = p.tick(&status(0, 0, 0));
    assert_eq!(
        line,
        "total_entities: 0 target_block: 0 processing_block: 0 percent: NaN% "
    );
    let mut p = StatusPoller::new(false, 0);
    let (line, _) = p.tick(&status(3, 0, 7));
    assert_eq!(
        line,
        "total_entities: 3 target_block: 0 processing_block: 7 percent: inf% "
    );
}
