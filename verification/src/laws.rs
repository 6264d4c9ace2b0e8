use vstd::prelude::*;

use crate::config::Configuration;
use crate::engine::PollOutcome;
use crate::engine::TimerEngine;

verus! {

/// The engine after `n` one-second ticks with no operation in between.
pub open spec fn run_for(e: TimerEngine, n: nat) -> TimerEngine
    decreases n,
{
    if n == 0 {
        e
    } else {
        run_for(e, (n - 1) as nat).after_tick()
    }
}

/// While a worker is live, `n` ticks take the counter down by `n`, clamped
/// at zero, and change nothing else.
pub proof fn lemma_run_for_live(e: TimerEngine, n: nat)
    requires
        e.worker is Running,
    ensures
        run_for(e, n) == (TimerEngine {
            remaining_sec: (if n >= e.remaining_sec {
                0u32
            } else {
                (e.remaining_sec - n) as u32
            }),
            ..e
        }),
    decreases n,
{
    if n > 0 {
        lemma_run_for_live(e, (n - 1) as nat);
    }
}

/// Without a live worker, no amount of elapsed time changes the state at
/// all.
pub proof fn lemma_run_for_idle(e: TimerEngine, n: nat)
    requires
        !(e.worker is Running),
    ensures
        run_for(e, n) == e,
    decreases n,
{
    if n > 0 {
        lemma_run_for_idle(e, (n - 1) as nat);
    }
}

/// `pause` followed by no `play` freezes the countdown: however much time
/// then passes, nothing in the state — `remaining_sec` in particular —
/// changes, because the canceled worker no longer touches the counter.
pub proof fn lemma_pause_freezes(e: TimerEngine, n: nat)
    requires
        e.wf(),
    ensures
        run_for(e.after_pause(), n) == e.after_pause(),
        run_for(e.after_pause(), n).remaining_sec == e.remaining_sec,
{
    lemma_run_for_idle(e.after_pause(), n);
}

/// From any valid configuration: `play` on the fresh session, then at
/// least a lap's worth of seconds, then one `poll`, yields exactly one
/// lap-complete report — and with it one notification request — and leaves
/// the engine paused in the short rest with the short rest's full duration
/// on the counter.  A further `poll` reports nothing new, so the
/// notification is requested exactly once.
pub proof fn lemma_first_lap_completion(config: Configuration, n: nat)
    requires
        config.valid(),
        n >= config.lap_duration_sec,
    ensures
        ({
            let started = TimerEngine::initial_spec(config).after_play();
            let expired = run_for(started, n);
            let polled = expired.after_poll(false);
            &&& expired.poll_outcome(false) == PollOutcome::LapComplete
            &&& polled.phase is LapRest
            &&& polled.remaining_sec == config.lap_rest_sec
            &&& polled.lap_count == 1
            &&& polled.loop_count == 0
            &&& polled.paused
            &&& polled.poll_outcome(false) == PollOutcome::Idle
            &&& polled.after_poll(false) == polled
        }),
{
    let started = TimerEngine::initial_spec(config).after_play();
    lemma_run_for_live(started, n);
}

/// One user-visible phase completion: the countdown runs out and the next
/// `poll` performs the transition.
pub open spec fn complete_phase(e: TimerEngine) -> TimerEngine {
    run_for(e, e.remaining_sec as nat).after_poll(false)
}

/// Four completed work intervals — each short rest acknowledged with
/// `play`, each rest-to-work transition automatic — close the loop: the
/// lap count is back to zero, the loop count is up by exactly one, and the
/// engine sits paused at the start of the long rest.
pub proof fn lemma_full_loop(e: TimerEngine)
    requires
        e.wf(),
        e.phase is Work,
        e.lap_count == 0,
        e.running,
        !e.paused,
        e.loop_count < 255,
    ensures
        ({
            let w1 = complete_phase(e);
            let w2 = complete_phase(complete_phase(w1.after_play()));
            let w3 = complete_phase(complete_phase(w2.after_play()));
            let w4 = complete_phase(complete_phase(w3.after_play()));
            &&& w4.phase is LoopRest
            &&& w4.lap_count == 0
            &&& w4.loop_count == e.loop_count + 1
            &&& w4.paused
        }),
{
    lemma_run_for_live(e, e.remaining_sec as nat);
    let w1 = complete_phase(e);
    let r1 = w1.after_play();
    lemma_run_for_live(r1, r1.remaining_sec as nat);
    let b1 = complete_phase(r1);
    lemma_run_for_live(b1, b1.remaining_sec as nat);
    let w2 = complete_phase(b1);
    let r2 = w2.after_play();
    lemma_run_for_live(r2, r2.remaining_sec as nat);
    let b2 = complete_phase(r2);
    lemma_run_for_live(b2, b2.remaining_sec as nat);
    let w3 = complete_phase(b2);
    let r3 = w3.after_play();
    lemma_run_for_live(r3, r3.remaining_sec as nat);
    let b3 = complete_phase(r3);
    lemma_run_for_live(b3, b3.remaining_sec as nat);
}

/// The loop count never goes down: `poll` — the only operation that
/// touches it short of a full `stop` reset — either keeps it or counts one
/// more completed loop, and time and the other controls leave it alone.
pub proof fn lemma_loop_count_monotone(e: TimerEngine, worker_done: bool)
    ensures
        e.after_poll(worker_done).loop_count >= e.loop_count,
        e.after_tick().loop_count == e.loop_count,
        e.after_play().loop_count == e.loop_count,
        e.after_pause().loop_count == e.loop_count,
{
}

/// The state after `k` rounds of `play` then `pause`.
pub open spec fn play_pause_rounds(e: TimerEngine, k: nat) -> TimerEngine
    decreases k,
{
    if k == 0 {
        e
    } else {
        play_pause_rounds(e, (k - 1) as nat).after_play().after_pause()
    }
}

/// Every round of `play` then `pause` keeps the engine well formed, and
/// ends with exactly the one canceled worker of its final `pause`.
pub proof fn lemma_rounds_wf(e: TimerEngine, k: nat)
    requires
        e.wf(),
    ensures
        play_pause_rounds(e, k).wf(),
        k > 0 ==> play_pause_rounds(e, k).worker is Canceled,
    decreases k,
{
    if k > 0 {
        lemma_rounds_wf(e, (k - 1) as nat);
    }
}

/// However many `play`/`pause` rounds are run, the `poll` that observes
/// the completion flag of the final round's canceled worker reclaims it:
/// no worker is left outstanding.
pub proof fn lemma_no_worker_leak(e: TimerEngine, k: nat)
    requires
        e.wf(),
        k > 0,
    ensures
        play_pause_rounds(e, k).after_poll(true).worker is Absent,
        play_pause_rounds(e, k).after_poll(true).wf(),
{
    lemma_rounds_wf(e, k);
}

} // verus!
