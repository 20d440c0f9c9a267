use lock_contention::phase::Phase;
use lock_contention::toggle::{Step, ToggleState};
use lock_contention::work::busy_work;

#[test]
fn phase_starts_holding_and_alternates() {
    let p = Phase::initial();
    assert_eq!(p, Phase::Holding);
    assert_eq!(p.next(), Phase::Released);
    assert_eq!(p.next().next(), Phase::Holding);
    assert!(Phase::Holding.holds_lock());
    assert!(!Phase::Released.holds_lock());
}

#[test]
fn fresh_state_has_no_work() {
    let st = ToggleState::new();
    assert_eq!(st.tasks_done(), 0);
    assert_eq!(st.phase(), Phase::Holding);
}

#[test]
fn decide_runs_burst_within_budget() {
    let st = ToggleState::new();
    assert_eq!(st.decide(0, 3_000_000_000), Step::Burst { phase: Phase::Holding });
    // the budget is only exceeded strictly after it
    assert_eq!(st.decide(3_000_000_000, 3_000_000_000), Step::Burst { phase: Phase::Holding });
}

#[test]
fn decide_finishes_past_budget() {
    let st = ToggleState::new();
    assert_eq!(st.decide(3_000_000_001, 3_000_000_000), Step::Finish { tasks_done: 0 });
}

#[test]
fn bursts_add_to_counter_and_toggle_phase() {
    let mut rng = rand::thread_rng();
    let mut st = ToggleState::new();
    st.run_burst(&mut rng, 3);
    assert_eq!(st.tasks_done(), 3);
    assert_eq!(st.phase(), Phase::Released);
    assert_eq!(st.decide(1, 2), Step::Burst { phase: Phase::Released });
    st.run_burst(&mut rng, 4);
    assert_eq!(st.tasks_done(), 7);
    assert_eq!(st.phase(), Phase::Holding);
    assert_eq!(st.decide(5, 2), Step::Finish { tasks_done: 7 });
}

#[test]
fn zero_task_burst_is_legal() {
    let mut rng = rand::thread_rng();
    let mut st = ToggleState::new();
    st.run_burst(&mut rng, 0);
    assert_eq!(st.tasks_done(), 0);
    assert_eq!(st.phase(), Phase::Released);
}

#[test]
fn busy_work_counts_units() {
    let mut rng = rand::thread_rng();
    assert_eq!(busy_work(&mut rng, 0), 0);
    assert_eq!(busy_work(&mut rng, 1000), 1000);
}
