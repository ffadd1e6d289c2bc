use rahmen::clock::Frontier;
use rahmen::ticker::Ticker;

#[test]
fn first_tick_fires_once_clock_passes_start() {
    let mut ticker = Ticker::new(1000, 0);
    let mut frontier = Frontier::new(0);

    // clock has not moved past the retained time: nothing fires
    assert_eq!(ticker.step(&frontier), None);

    frontier.advance_to(10);
    assert_eq!(ticker.step(&frontier), Some(0));
    // stepping again without a clock advance fires nothing
    assert_eq!(ticker.step(&frontier), None);
}

#[test]
fn ticks_are_spaced_at_least_one_delay_apart() {
    let mut ticker = Ticker::new(100, 0);
    let mut frontier = Frontier::new(0);
    let mut ticks: Vec<u64> = Vec::new();
    let mut now: u64 = 0;
    for _ in 0..50 {
        now += 30;
        frontier.advance_to(now);
        if let Some(t) = ticker.step(&frontier) {
            ticks.push(t);
        }
    }
    assert!(ticks.len() >= 2);
    for i in 1..ticks.len() {
        assert!(ticks[i] >= ticks[i - 1] + 100);
    }
    for (i, t) in ticks.iter().enumerate() {
        assert!(*t >= (i as u64) * 100);
    }
}

#[test]
fn small_advances_fire_at_most_one_tick() {
    let mut ticker = Ticker::new(1000, 0);
    let mut frontier = Frontier::new(0);
    frontier.advance_to(1);
    assert_eq!(ticker.step(&frontier), Some(0));
    // advances smaller than the delay: no further tick
    for now in [2u64, 300, 600, 999, 1000] {
        frontier.advance_to(now);
        assert_eq!(ticker.step(&frontier), None);
    }
    frontier.advance_to(1001);
    assert_eq!(ticker.step(&frontier), Some(1000));
}

#[test]
fn catch_up_skips_missed_ticks_instead_of_bursting() {
    let mut ticker = Ticker::new(1000, 0);
    let mut frontier = Frontier::new(0);
    frontier.advance_to(1);
    assert_eq!(ticker.step(&frontier), Some(0));

    // the clock jumps forward by ten delays in one step
    frontier.advance_to(1 + 10 * 1000);
    assert_eq!(ticker.step(&frontier), Some(1000));
    // exactly one tick came out of the jump: the next step fires nothing
    assert_eq!(ticker.step(&frontier), None);
    // and the schedule resumes one delay later, not with a backlog
    frontier.advance_to(12000);
    assert_eq!(ticker.step(&frontier), Some(11000));
    assert_eq!(ticker.step(&frontier), None);
}

#[test]
fn frontier_passes_a_time_once_it_moved_beyond_it() {
    let mut frontier = Frontier::new(5);
    assert!(!frontier.passed(5));
    assert!(frontier.passed(4));
    frontier.advance_to(10);
    assert!(frontier.passed(9));
    assert!(!frontier.passed(10));
    // a closed input has retired everything
    frontier.close();
    assert!(frontier.passed(u64::MAX));
}

#[test]
fn closed_frontier_stops_the_ticker_for_good() {
    let mut ticker = Ticker::new(50, 0);
    let mut frontier = Frontier::new(0);
    frontier.advance_to(60);
    assert_eq!(ticker.step(&frontier), Some(0));
    frontier.close();
    assert_eq!(ticker.step(&frontier), None);
    // even if the clock keeps advancing, a released capability never fires
    let reopened = Frontier::new(10_000);
    assert_eq!(ticker.step(&reopened), None);
}
