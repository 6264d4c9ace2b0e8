use pomodoro::config::Configuration;
use pomodoro::config::TimerError;
use pomodoro::engine::PauseOutcome;
use pomodoro::engine::Phase;
use pomodoro::engine::PlayOutcome;
use pomodoro::engine::PollOutcome;
use pomodoro::engine::TimerEngine;
use pomodoro::worker::WorkerState;

fn minutes(lap: u32, lap_rest: u32, loop_rest: u32) -> Configuration {
    Configuration {
        lap_duration_sec: lap * 60,
        lap_rest_sec: lap_rest * 60,
        loop_rest_sec: loop_rest * 60,
    }
}

#[test]
fn fresh_engine_has_default_state() {
    let e = TimerEngine::new();
    assert_eq!(e.config.lap_duration_sec, 25 * 60);
    assert_eq!(e.config.lap_rest_sec, 5 * 60);
    assert_eq!(e.config.loop_rest_sec, 30 * 60);
    assert_eq!(e.phase, Phase::Work);
    assert_eq!(e.remaining_sec, 25 * 60);
    assert_eq!(e.lap_count, 0);
    assert_eq!(e.loop_count, 0);
    assert!(!e.running);
    assert!(e.paused);
    assert_eq!(e.worker, WorkerState::Absent);
    assert_eq!(TimerEngine::default(), e);
}

#[test]
fn configure_applies_and_reseeds_counter() {
    let mut e = TimerEngine::new();
    let r = e.configure(minutes(1, 1, 2));
    assert_eq!(r, Ok(()));
    assert_eq!(e.remaining_sec, 60);
    assert_eq!(e.config.lap_rest_sec, 60);
    assert_eq!(e.config.loop_rest_sec, 120);
    assert!(!e.running);
    assert!(e.paused);
}

#[test]
fn configure_rejects_out_of_range_durations() {
    let mut e = TimerEngine::new();
    let short = Configuration { lap_duration_sec: 59, lap_rest_sec: 60, loop_rest_sec: 60 };
    assert_eq!(e.configure(short), Err(TimerError::ConfigOutOfRange));
    let long = Configuration { lap_duration_sec: 60, lap_rest_sec: 3541, loop_rest_sec: 60 };
    assert_eq!(e.configure(long), Err(TimerError::ConfigOutOfRange));
    // The rejected calls left the engine untouched.
    assert_eq!(e.config, Configuration::default());
    assert_eq!(e.remaining_sec, 25 * 60);
}

#[test]
fn configure_accepts_boundary_durations() {
    let mut e = TimerEngine::new();
    let cfg = Configuration { lap_duration_sec: 60, lap_rest_sec: 3540, loop_rest_sec: 3540 };
    assert_eq!(e.configure(cfg), Ok(()));
    assert_eq!(e.remaining_sec, 60);
}

#[test]
fn configure_rejected_while_running() {
    let mut e = TimerEngine::new();
    assert_eq!(e.play(), PlayOutcome::Started);
    assert_eq!(e.configure(minutes(1, 1, 1)), Err(TimerError::InvalidTransition));
    assert_eq!(e.config, Configuration::default());
    // Still rejected while running paused: the session must be stopped first.
    e.pause();
    assert_eq!(e.configure(minutes(1, 1, 1)), Err(TimerError::InvalidTransition));
}

#[test]
fn from_minutes_converts_exactly() {
    let cfg = Configuration::from_minutes(1, 2, 3);
    assert_eq!(cfg.lap_duration_sec, 60);
    assert_eq!(cfg.lap_rest_sec, 120);
    assert_eq!(cfg.loop_rest_sec, 180);
    assert!(cfg.is_valid());
    assert!(!Configuration::from_minutes(0, 2, 3).is_valid());
}

#[test]
fn countdown_step_decrements_and_clamps() {
    assert_eq!(pomodoro::worker::countdown_step(60), 59);
    assert_eq!(pomodoro::worker::countdown_step(1), 0);
    assert_eq!(pomodoro::worker::countdown_step(0), 0);
}

#[test]
fn play_starts_one_worker_and_is_idempotent() {
    let mut e = TimerEngine::new();
    assert_eq!(e.play(), PlayOutcome::Started);
    assert!(e.running);
    assert!(!e.paused);
    assert_eq!(e.worker, WorkerState::Running);
    let snapshot = e;
    assert_eq!(e.play(), PlayOutcome::AlreadyRunning);
    assert_eq!(e, snapshot);
}

#[test]
fn pause_cancels_worker_and_is_idempotent() {
    let mut e = TimerEngine::new();
    e.play();
    assert_eq!(e.pause(), PauseOutcome::Canceled);
    assert!(e.paused);
    assert!(e.running);
    assert_eq!(e.worker, WorkerState::Canceled);
    let snapshot = e;
    assert_eq!(e.pause(), PauseOutcome::AlreadyPaused);
    assert_eq!(e, snapshot);
}

#[test]
fn pause_freezes_remaining_for_any_duration() {
    let mut e = TimerEngine::new();
    e.configure(minutes(1, 1, 2)).unwrap();
    e.play();
    for _ in 0..10 {
        e.tick();
    }
    assert_eq!(e.remaining_sec, 50);
    e.pause();
    for _ in 0..1000 {
        e.tick();
    }
    assert_eq!(e.remaining_sec, 50);
    assert_eq!(e.poll(false), PollOutcome::Idle);
    assert_eq!(e.remaining_sec, 50);
}

#[test]
fn tick_does_nothing_while_stopped() {
    let mut e = TimerEngine::new();
    e.tick();
    assert_eq!(e.remaining_sec, 25 * 60);
}

#[test]
fn poll_reclaims_finished_worker() {
    let mut e = TimerEngine::new();
    e.play();
    e.pause();
    assert_eq!(e.worker, WorkerState::Canceled);
    assert_eq!(e.poll(true), PollOutcome::Reclaimed);
    assert_eq!(e.worker, WorkerState::Absent);
    assert_eq!(e.poll(false), PollOutcome::Idle);
}

#[test]
fn repeated_play_pause_cycles_leave_no_worker() {
    let mut e = TimerEngine::new();
    e.configure(minutes(1, 1, 2)).unwrap();
    for _ in 0..100 {
        assert_eq!(e.play(), PlayOutcome::Started);
        assert_eq!(e.pause(), PauseOutcome::Canceled);
    }
    assert_eq!(e.worker, WorkerState::Canceled);
    assert_eq!(e.poll(true), PollOutcome::Reclaimed);
    assert_eq!(e.worker, WorkerState::Absent);
    assert_eq!(e.remaining_sec, 60);
}

#[test]
fn work_expiry_transitions_to_lap_rest_and_pauses() {
    let mut e = TimerEngine::new();
    e.configure(minutes(1, 1, 2)).unwrap();
    e.play();
    // Waiting longer than the lap changes nothing: the worker clamps at zero.
    for _ in 0..75 {
        e.tick();
    }
    assert_eq!(e.remaining_sec, 0);
    assert_eq!(e.poll(false), PollOutcome::LapComplete);
    assert_eq!(e.phase, Phase::LapRest);
    assert_eq!(e.remaining_sec, 60);
    assert_eq!(e.lap_count, 1);
    assert_eq!(e.loop_count, 0);
    assert!(e.paused);
    assert_eq!(e.worker, WorkerState::Canceled);
    // Exactly one completion report: the next poll is quiet.
    assert_eq!(e.poll(false), PollOutcome::Idle);
}

#[test]
fn sixty_tick_scenario_runs_lap_then_rest() {
    let mut e = TimerEngine::new();
    e.configure(minutes(1, 1, 2)).unwrap();
    e.play();
    for _ in 0..60 {
        e.tick();
    }
    assert_eq!(e.poll(false), PollOutcome::LapComplete);
    assert_eq!(e.phase, Phase::LapRest);
    assert_eq!(e.remaining_sec, 60);
    assert_eq!(e.lap_count, 1);
    assert_eq!(e.play(), PlayOutcome::Started);
    for _ in 0..60 {
        e.tick();
    }
    assert_eq!(e.poll(false), PollOutcome::RestComplete);
    assert_eq!(e.phase, Phase::Work);
    assert_eq!(e.remaining_sec, 60);
    assert!(e.running);
    assert!(!e.paused);
    assert_eq!(e.worker, WorkerState::Running);
}

fn run_out_current_phase(e: &mut TimerEngine) -> PollOutcome {
    while e.remaining_sec > 0 {
        e.tick();
    }
    e.poll(false)
}

#[test]
fn four_laps_close_the_loop() {
    let mut e = TimerEngine::new();
    e.configure(minutes(1, 1, 2)).unwrap();
    e.play();
    for lap in 1..=3u8 {
        assert_eq!(run_out_current_phase(&mut e), PollOutcome::LapComplete);
        assert_eq!(e.phase, Phase::LapRest);
        assert_eq!(e.lap_count, lap);
        assert_eq!(e.play(), PlayOutcome::Started);
        assert_eq!(run_out_current_phase(&mut e), PollOutcome::RestComplete);
        assert_eq!(e.phase, Phase::Work);
    }
    assert_eq!(run_out_current_phase(&mut e), PollOutcome::LapComplete);
    assert_eq!(e.phase, Phase::LoopRest);
    assert_eq!(e.remaining_sec, 120);
    assert_eq!(e.lap_count, 0);
    assert_eq!(e.loop_count, 1);
    assert!(e.paused);
    // The long rest flows back into work like any other rest.
    assert_eq!(e.play(), PlayOutcome::Started);
    assert_eq!(run_out_current_phase(&mut e), PollOutcome::RestComplete);
    assert_eq!(e.phase, Phase::Work);
    assert_eq!(e.remaining_sec, 60);
}

#[test]
fn stop_restores_default_state_for_configuration() {
    let mut e = TimerEngine::new();
    e.configure(minutes(1, 1, 2)).unwrap();
    e.play();
    let _ = run_out_current_phase(&mut e);
    // Mid-session: in the short rest, one lap counted, paused.
    assert_eq!(e.stop(), Ok(()));
    assert_eq!(e.phase, Phase::Work);
    assert_eq!(e.remaining_sec, 60);
    assert_eq!(e.lap_count, 0);
    assert_eq!(e.loop_count, 0);
    assert!(!e.running);
    assert!(e.paused);
    assert_eq!(e.worker, WorkerState::Absent);
    // The configuration itself survives the reset.
    assert_eq!(e.config, minutes(1, 1, 2));
}

#[test]
fn stop_rejected_while_counting() {
    let mut e = TimerEngine::new();
    e.play();
    let snapshot = e;
    assert_eq!(e.stop(), Err(TimerError::InvalidTransition));
    assert_eq!(e, snapshot);
}

#[test]
fn clock_parts_split_remaining_time() {
    let mut e = TimerEngine::new();
    assert_eq!(e.clock_parts(), (25, 0));
    e.play();
    e.tick();
    assert_eq!(e.clock_parts(), (24, 59));
}

#[test]
fn lap_complete_notification_contents() {
    let r = pomodoro::notify::lap_complete_request();
    assert_eq!(r.title, "Pomodoro");
    assert_eq!(r.body, "Time out! Please check your tomato!");
    assert!(r.persistent);
}
