use ticksync::classify::{consensus, second_window, Consensus, ServerTime};
use ticksync::controller::{Ratio, GAIN, SCALE};
use ticksync::estimator::Window;
use ticksync::sched::{sleep_plan, SleepPlan, SyncState};

const MS: u64 = 1_000_000;
const SEC: u64 = 1_000_000_000;

#[test]
fn estimator_first_sample_is_taken_verbatim() {
    let mut w = Window::new();
    assert!(w.is_empty());
    assert_eq!(w.avg(), 0);
    w.push(100 * MS);
    assert!(!w.is_empty());
    assert_eq!(w.avg(), 100 * MS);
}

#[test]
fn estimator_second_sample_mixes_seven_three() {
    let mut w = Window::new();
    w.push(100 * MS);
    w.push(120 * MS);
    // 0.7 * 100ms + 0.3 * 120ms = 106ms
    assert_eq!(w.avg(), 106 * MS);
}

#[test]
fn estimator_reacts_to_sustained_shift() {
    let mut w = Window::new();
    w.push(100 * MS);
    for _ in 0..20 {
        w.push(200 * MS);
    }
    let avg = w.avg();
    assert!(avg > 190 * MS && avg <= 200 * MS);
}

#[test]
fn controller_starts_neutral() {
    let r = Ratio::new();
    assert_eq!(r.v, SCALE / 2);
    assert_eq!(r.i, 0);
}

#[test]
fn controller_single_steps() {
    let mut r = Ratio::new();
    r.update(-1);
    assert_eq!(r.i, -1);
    assert_eq!(r.v, SCALE / 2 - 2 * GAIN);
    r.update(1);
    assert_eq!(r.i, 0);
    assert_eq!(r.v, SCALE / 2 - 2 * GAIN + GAIN);
}

#[test]
fn controller_fraction_stays_in_unit_interval() {
    let mut r = Ratio::new();
    for _ in 0..500 {
        r.update(-1);
        assert!(r.v <= SCALE);
    }
    // clamped at the bottom however far the integral term has run
    assert_eq!(r.v, 0);
    for _ in 0..1020 {
        r.update(1);
        assert!(r.v <= SCALE);
    }
    // clamped at the top once the integral term has swung around
    assert_eq!(r.v, SCALE);
}

#[test]
fn controller_apply_scales_duration() {
    let r = Ratio::new();
    // half of 100ms
    assert_eq!(r.apply(100 * MS), 50 * MS);
    let mut r2 = Ratio::new();
    for _ in 0..500 {
        r2.update(1);
    }
    assert_eq!(r2.v, SCALE);
    assert_eq!(r2.apply(100 * MS), 100 * MS);
}

#[test]
fn window_wraps_at_minute_start() {
    assert_eq!(second_window(5), (4, 5));
    assert_eq!(second_window(0), (59, 0));
}

#[test]
fn header_classification_uses_window() {
    let (s0, s1) = second_window(5);
    assert_eq!(
        ServerTime::from_header("Wed, 21 Oct 2015 07:28:04 GMT", s0, s1),
        ServerTime::Early
    );
    assert_eq!(
        ServerTime::from_header("Wed, 21 Oct 2015 07:28:05 GMT", s0, s1),
        ServerTime::Late
    );
    assert_eq!(
        ServerTime::from_header("Wed, 21 Oct 2015 07:28:31 GMT", s0, s1),
        ServerTime::Other
    );
}

#[test]
fn timestamp_classification_uses_window() {
    // 1431648004 % 60 == 4
    assert_eq!(ServerTime::from_timestamp(1431648004, 4, 5), ServerTime::Early);
    assert_eq!(ServerTime::from_timestamp(1431648005, 4, 5), ServerTime::Late);
    assert_eq!(ServerTime::from_timestamp(1431648017, 4, 5), ServerTime::Other);
}

#[test]
fn reading_symbols() {
    assert_eq!(ServerTime::Early.symbol(), '-');
    assert_eq!(ServerTime::Late.symbol(), '+');
    assert_eq!(ServerTime::Other.symbol(), '0');
}

#[test]
fn consensus_table() {
    assert_eq!(consensus(ServerTime::Early, ServerTime::Early), Consensus::TooEarly);
    assert_eq!(consensus(ServerTime::Late, ServerTime::Late), Consensus::TooLate);
    assert_eq!(consensus(ServerTime::Early, ServerTime::Late), Consensus::Split);
    assert_eq!(consensus(ServerTime::Late, ServerTime::Early), Consensus::Anomaly);
    assert_eq!(consensus(ServerTime::Other, ServerTime::Early), Consensus::Unclear);
    assert_eq!(consensus(ServerTime::Early, ServerTime::Other), Consensus::Unclear);
    assert_eq!(consensus(ServerTime::Other, ServerTime::Other), Consensus::Unclear);
}

fn fresh_state(date: u64) -> SyncState {
    // new() aligns to the second boundary at or before `date`
    SyncState::new(date)
}

#[test]
fn first_tick_never_moves_the_controller() {
    let mut st = fresh_state(1_000 * SEC);
    let v0 = st.ratio.v;
    let off = st.step_success(100 * MS, ServerTime::Early, ServerTime::Early, 1_000 * SEC);
    assert_eq!(st.ratio.v, v0);
    assert_eq!(st.ratio.i, 0);
    assert_eq!(st.win.avg(), 100 * MS);
    // lead time: new estimate scaled by the unchanged half fraction
    assert_eq!(off, 50 * MS);
}

#[test]
fn three_early_ticks_strictly_decrease_fraction() {
    let mut st = fresh_state(1_000 * SEC);
    // seed the estimator so every later tick can classify
    st.step_success(80 * MS, ServerTime::Other, ServerTime::Other, 1_000 * SEC);
    let v0 = st.ratio.v;
    st.step_success(100 * MS, ServerTime::Early, ServerTime::Early, 1_001 * SEC);
    let v1 = st.ratio.v;
    st.step_success(120 * MS, ServerTime::Early, ServerTime::Early, 1_002 * SEC);
    let v2 = st.ratio.v;
    st.step_success(90 * MS, ServerTime::Early, ServerTime::Early, 1_003 * SEC);
    let v3 = st.ratio.v;
    assert!(v0 > v1 && v1 > v2 && v2 > v3);
    assert_eq!(v1, 480_000);
    assert_eq!(v2, 450_000);
    assert_eq!(v3, 410_000);
    assert_eq!(st.ratio.i, -3);
}

#[test]
fn split_anomaly_and_unclear_leave_controller_alone() {
    let cases = [
        (ServerTime::Early, ServerTime::Late),
        (ServerTime::Late, ServerTime::Early),
        (ServerTime::Other, ServerTime::Early),
        (ServerTime::Early, ServerTime::Other),
        (ServerTime::Other, ServerTime::Other),
    ];
    for (field, header) in cases {
        let mut st = fresh_state(1_000 * SEC);
        st.step_success(80 * MS, ServerTime::Other, ServerTime::Other, 1_000 * SEC);
        let (v, i) = (st.ratio.v, st.ratio.i);
        st.step_success(100 * MS, field, header, 1_001 * SEC);
        assert_eq!(st.ratio.v, v);
        assert_eq!(st.ratio.i, i);
    }
}

#[test]
fn late_agreement_raises_fraction() {
    let mut st = fresh_state(1_000 * SEC);
    st.step_success(80 * MS, ServerTime::Other, ServerTime::Other, 1_000 * SEC);
    st.step_success(100 * MS, ServerTime::Late, ServerTime::Late, 1_001 * SEC);
    assert_eq!(st.ratio.v, 520_000);
    assert_eq!(st.ratio.i, 1);
}

#[test]
fn new_state_aligns_clock() {
    let st = fresh_state(1_000 * SEC + 123_456_789);
    assert_eq!(st.date, 1_000 * SEC);
    // 1000 % 60 == 40
    assert_eq!(st.sec1, 40);
    assert_eq!(st.sec0, 39);
    assert!(st.win.is_empty());
}

#[test]
fn clock_advances_one_second_per_tick() {
    let mut st = fresh_state(1_000 * SEC);
    assert_eq!(st.date, 1_000 * SEC);
    st.step_success(100 * MS, ServerTime::Other, ServerTime::Other, 1_000 * SEC);
    assert_eq!(st.date, 1_001 * SEC);
    st.step_failure(1_001 * SEC);
    assert_eq!(st.date, 1_002 * SEC);
}

#[test]
fn drift_realigns_to_real_time() {
    let mut st = fresh_state(1_000 * SEC);
    // real time is 3.5 s past the target by the time the tick completes
    let now = 1_003 * SEC + 500 * MS;
    st.step_success(100 * MS, ServerTime::Other, ServerTime::Other, now);
    assert_eq!(st.date, 1_004 * SEC);
    // window follows the new target second: 1004 % 60 == 44
    assert_eq!(st.sec1, 44);
    assert_eq!(st.sec0, 43);
}

#[test]
fn failed_tick_preserves_estimator_and_controller() {
    let mut st = fresh_state(1_000 * SEC);
    st.step_success(80 * MS, ServerTime::Other, ServerTime::Other, 1_000 * SEC);
    let (v, i, avg) = (st.ratio.v, st.ratio.i, st.win.avg());
    let off = st.step_failure(1_001 * SEC);
    assert_eq!(st.ratio.v, v);
    assert_eq!(st.ratio.i, i);
    assert_eq!(st.win.avg(), avg);
    // stale estimate, current fraction
    assert_eq!(off, 40 * MS);
    // the next successful tick uses only its own data
    st.step_success(100 * MS, ServerTime::Early, ServerTime::Early, 1_002 * SEC);
    assert_eq!(st.ratio.i, -1);
    assert_eq!(st.win.avg(), (7 * 80 * MS + 3 * 100 * MS) / 10);
}

#[test]
fn window_follows_target_second() {
    let mut st = fresh_state(59 * SEC);
    assert_eq!(st.sec1, 59);
    assert_eq!(st.sec0, 58);
    st.step_success(10 * MS, ServerTime::Other, ServerTime::Other, 59 * SEC);
    // 60 % 60 == 0 wraps the window
    assert_eq!(st.sec1, 0);
    assert_eq!(st.sec0, 59);
}

#[test]
fn sleep_plan_sleeps_until_send_instant() {
    // target 1001s, lead 50ms, now 1000s: sleep 950ms
    assert_eq!(
        sleep_plan(1_001 * SEC, 50 * MS, 1_000 * SEC),
        SleepPlan::Sleep(950 * MS)
    );
}

#[test]
fn sleep_plan_reports_lag() {
    // send instant already 200ms in the past
    assert_eq!(
        sleep_plan(1_001 * SEC, 50 * MS, 1_001 * SEC + 150 * MS),
        SleepPlan::Behind(200 * MS)
    );
}
