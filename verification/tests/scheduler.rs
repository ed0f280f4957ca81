use signals::error::ConfigError;
use signals::scheduler::{Action, CycleEnd, CycleStart, Pacing, Scheduler, PAUSE_POLL_MILLIS};
use signals::simulation_options::{TimeScale, DEFAULT_SLOWDOWN_THOUSANDTHS};

fn scale(thousandths: u32) -> TimeScale {
    TimeScale::new(thousandths).unwrap()
}

#[test]
fn time_scale_of_zero_is_refused() {
    assert_eq!(TimeScale::new(0), Err(ConfigError::NonPositiveTimeScale));
}

#[test]
fn time_scale_keeps_its_thousandths() {
    assert_eq!(scale(1).thousandths(), 1);
    assert_eq!(scale(300_000).thousandths(), 300_000);
    assert_eq!(scale(u32::MAX).thousandths(), u32::MAX);
}

#[test]
fn default_time_scale_is_three_hundred() {
    assert_eq!(TimeScale::default().thousandths(), 300_000);
    assert_eq!(DEFAULT_SLOWDOWN_THOUSANDTHS, 300_000);
}

#[test]
fn new_scheduler_runs_from_time_zero() {
    let scheduler = Scheduler::new(1000, 1000, scale(300_000));
    assert_eq!(scheduler.elapsed_ticks(), 0);
    assert_eq!(scheduler.elapsed_ns(), 0);
    assert!(!scheduler.is_paused());
    assert_eq!(scheduler.slowdown_factor(), scale(300_000));
}

#[test]
fn batch_is_twice_the_quotient_rounded_up() {
    // ceil(1000 / 300) = 4
    assert_eq!(Scheduler::new(1000, 1000, scale(300_000)).batch(), 8);
    // ceil(1000 / 1000) = 1
    assert_eq!(Scheduler::new(1000, 1000, scale(1_000_000)).batch(), 2);
    // ceil(1000 / 1000.001) = 1
    assert_eq!(Scheduler::new(1000, 1000, scale(1_000_001)).batch(), 2);
    // ceil(1000 / 999.999) = 2
    assert_eq!(Scheduler::new(1000, 1000, scale(999_999)).batch(), 4);
    // ceil(1000 / 0.5) = 2000
    assert_eq!(Scheduler::new(1000, 1000, scale(500)).batch(), 4000);
    // ceil(7 / 2) = 4
    assert_eq!(Scheduler::new(7, 1000, scale(2000)).batch(), 8);
    assert_eq!(Scheduler::new(0, 1000, scale(2000)).batch(), 0);
}

#[test]
fn batch_at_the_limits_of_its_inputs() {
    assert_eq!(Scheduler::new(u32::MAX, 1, scale(1)).batch(), 2 * 4_294_967_295_000);
    assert_eq!(Scheduler::new(u32::MAX, 1, scale(u32::MAX)).batch(), 2 * 1000);
    assert_eq!(Scheduler::new(1, 1, scale(u32::MAX)).batch(), 2);
}

#[test]
fn budget_is_period_times_scale_times_batch() {
    // 1000 * 300 * 8
    assert_eq!(Scheduler::new(1000, 1000, scale(300_000)).budget_ns(), 2_400_000);
    // 500 * 300.001 * 8 = 1 200 004
    assert_eq!(Scheduler::new(1000, 500, scale(300_001)).budget_ns(), 1_200_004);
    // batch = 2 * ceil(48 / 2.5) = 40, 20833 * 2.5 * 40 = 2 083 300
    assert_eq!(Scheduler::new(48, 20_833, scale(2500)).budget_ns(), 2_083_300);
    assert_eq!(
        Scheduler::new(u32::MAX, u32::MAX, scale(u32::MAX)).budget_ns(),
        18_446_744_065_119_617_025u128 * 2
    );
}

#[test]
fn budget_is_cut_to_whole_nanoseconds_once_at_the_end() {
    // batch = 2 * ceil(10 / 0.333) = 62, 3 * 0.333 * 62 = 61.938
    let scheduler = Scheduler::new(10, 3, scale(333));
    assert_eq!(scheduler.batch(), 62);
    assert_eq!(scheduler.budget_ns(), 61);
    // 7 * 0.001 * 2000 = 14
    assert_eq!(Scheduler::new(1, 7, scale(1)).budget_ns(), 14);
    // 1 * 0.001 * 2 * ceil(1 / 0.001) = 2
    assert_eq!(Scheduler::new(1, 1, scale(1)).budget_ns(), 2);
}

#[test]
fn step_hands_out_consecutive_times() {
    let mut scheduler = Scheduler::new(4, 250, scale(1000));
    assert_eq!(scheduler.step(), Some(1));
    assert_eq!(scheduler.step(), Some(2));
    assert_eq!(scheduler.step(), Some(3));
    assert_eq!(scheduler.elapsed_ticks(), 3);
    assert_eq!(scheduler.elapsed_ns(), 750);
}

#[test]
fn batch_of_samples_ends_one_batch_later() {
    let mut scheduler = Scheduler::new(3, 250, scale(1000));
    for _ in 0..4 {
        scheduler.step();
    }
    let start = scheduler.begin_cycle(None, None);
    let Action::Generate { batch, .. } = start.action else {
        panic!("a running scheduler generates");
    };
    assert_eq!(batch, 6);
    let times: Vec<u64> = (0..batch).map(|_| scheduler.step().unwrap()).collect();
    assert_eq!(times, vec![5, 6, 7, 8, 9, 10]);
    assert_eq!(scheduler.elapsed_ticks(), start.elapsed_ticks + batch);
}

#[test]
fn cycle_without_news_generates() {
    let mut scheduler = Scheduler::new(1000, 1000, scale(300_000));
    scheduler.step();
    let start = scheduler.begin_cycle(None, None);
    assert_eq!(
        start,
        CycleStart {
            reset: false,
            elapsed_ticks: 1,
            action: Action::Generate { batch: 8, budget_ns: 2_400_000, restart_clock: false },
        }
    );
    let same = scheduler.begin_cycle(Some(scale(300_000)), Some(false));
    assert_eq!(same, start);
}

#[test]
fn new_time_scale_restarts_virtual_time() {
    let mut scheduler = Scheduler::new(1000, 1000, scale(300_000));
    for _ in 0..5 {
        scheduler.step();
    }
    let start = scheduler.begin_cycle(Some(scale(500_000)), None);
    assert_eq!(
        start,
        CycleStart {
            reset: true,
            elapsed_ticks: 0,
            action: Action::Generate { batch: 4, budget_ns: 500_000 * 4, restart_clock: false },
        }
    );
    assert_eq!(scheduler.elapsed_ticks(), 0);
    assert_eq!(scheduler.slowdown_factor(), scale(500_000));
    assert_eq!(scheduler.step(), Some(1));
}

#[test]
fn unread_time_scale_keeps_the_last_one() {
    let mut scheduler = Scheduler::new(1000, 1000, scale(300_000));
    scheduler.begin_cycle(Some(scale(500_000)), None);
    scheduler.step();
    let start = scheduler.begin_cycle(None, None);
    assert!(!start.reset);
    assert_eq!(start.elapsed_ticks, 1);
    assert_eq!(scheduler.slowdown_factor(), scale(500_000));
}

#[test]
fn paused_scheduler_stands_still() {
    let mut scheduler = Scheduler::new(1000, 1000, scale(300_000));
    scheduler.step();
    scheduler.step();
    let start = scheduler.begin_cycle(None, Some(true));
    assert_eq!(
        start,
        CycleStart {
            reset: false,
            elapsed_ticks: 2,
            action: Action::Wait { millis: PAUSE_POLL_MILLIS },
        }
    );
    assert!(scheduler.is_paused());
    for _ in 0..3 {
        assert_eq!(scheduler.step(), None);
        assert_eq!(scheduler.poll_pause(true), Action::Wait { millis: 10 });
        assert_eq!(scheduler.elapsed_ticks(), 2);
    }
}

#[test]
fn resuming_continues_where_the_pause_began() {
    let mut scheduler = Scheduler::new(1000, 1000, scale(300_000));
    scheduler.step();
    scheduler.step();
    scheduler.begin_cycle(None, Some(true));
    scheduler.poll_pause(true);
    let action = scheduler.poll_pause(false);
    assert_eq!(action, Action::Generate { batch: 8, budget_ns: 2_400_000, restart_clock: true });
    assert!(!scheduler.is_paused());
    assert_eq!(scheduler.elapsed_ticks(), 2);
    assert_eq!(scheduler.step(), Some(3));
    assert_eq!(scheduler.step(), Some(4));
    let next = scheduler.begin_cycle(None, Some(false));
    assert_eq!(
        next.action,
        Action::Generate { batch: 8, budget_ns: 2_400_000, restart_clock: false }
    );
}

#[test]
fn unread_pause_flag_keeps_the_last_one() {
    let mut scheduler = Scheduler::new(1000, 1000, scale(300_000));
    let running = scheduler.begin_cycle(None, None);
    assert!(!scheduler.is_paused());
    assert_eq!(
        running.action,
        Action::Generate { batch: 8, budget_ns: 2_400_000, restart_clock: false }
    );
    scheduler.begin_cycle(None, Some(true));
    let paused = scheduler.begin_cycle(None, None);
    assert!(scheduler.is_paused());
    assert_eq!(paused.action, Action::Wait { millis: 10 });
    assert_eq!(scheduler.step(), None);
    let resumed = scheduler.begin_cycle(None, Some(false));
    assert!(!scheduler.is_paused());
    assert_eq!(
        resumed.action,
        Action::Generate { batch: 8, budget_ns: 2_400_000, restart_clock: true }
    );
}

#[test]
fn cycle_under_budget_sleeps_for_the_rest() {
    let scheduler = Scheduler::new(1000, 1000, scale(300_000));
    assert_eq!(
        scheduler.end_cycle(400_000),
        CycleEnd { pacing: Pacing::Sleep { nanos: 2_000_000 }, advance_ns: 2_400_000 }
    );
    assert_eq!(
        scheduler.end_cycle(0),
        CycleEnd { pacing: Pacing::Sleep { nanos: 2_400_000 }, advance_ns: 2_400_000 }
    );
    assert_eq!(scheduler.end_cycle(2_399_999).pacing, Pacing::Sleep { nanos: 1 });
    let finer = Scheduler::new(1000, 500, scale(300_001));
    assert_eq!(
        finer.end_cycle(1_200_002),
        CycleEnd { pacing: Pacing::Sleep { nanos: 2 }, advance_ns: 1_200_004 }
    );
}

#[test]
fn cycle_over_budget_reports_the_excess() {
    let scheduler = Scheduler::new(1000, 1000, scale(300_000));
    assert_eq!(
        scheduler.end_cycle(2_400_000),
        CycleEnd { pacing: Pacing::Overrun { micros: 0 }, advance_ns: 2_400_000 }
    );
    assert_eq!(
        scheduler.end_cycle(2_405_999),
        CycleEnd { pacing: Pacing::Overrun { micros: 5 }, advance_ns: 2_400_000 }
    );
    assert_eq!(
        scheduler.end_cycle(u128::MAX).pacing,
        Pacing::Overrun { micros: (u128::MAX - 2_400_000) / 1000 }
    );
}
