//! What holds of every timer, proved over the model that the machine's
//! contracts are stated in.

use crate::config::Intervals;
use crate::model::{ticks_to_cover, Event, Phase};
use vstd::arithmetic::div_mod::{lemma_fundamental_div_mod, lemma_mod_bound};
use vstd::arithmetic::mul::{lemma_mul_inequality, lemma_mul_is_distributive_sub_other_way};
use vstd::prelude::*;

verus! {

/// The time left never goes below zero: from a phase whose time left is in
/// range, every sequence of steps and delivered requests leads to one whose
/// time left is in range.
pub proof fn law_time_left_never_negative(start: Phase, cfg: Intervals, events: Seq<Event>)
    requires
        start.valid(),
    ensures
        start.run(cfg, events).valid(),
        0 <= start.run(cfg, events).remaining(),
    decreases events.len(),
{
    if events.len() > 0 {
        law_time_left_never_negative(start, cfg, events.drop_last());
    }
}

/// A started machine is in exactly one of its three states after any
/// sequence of steps and delivered requests. Nothing stops it.
pub proof fn law_exactly_one_state_active(start: Phase, cfg: Intervals, events: Seq<Event>)
    requires
        start.started(),
    ensures
        start.run(cfg, events).started(),
        start.run(cfg, events).active_states() == 1,
    decreases events.len(),
{
    if events.len() > 0 {
        law_exactly_one_state_active(start, cfg, events.drop_last());
    }
}

/// Steps with nothing delivered in between are a sequence of events like
/// any other, so what holds after every sequence holds after every number
/// of ticks.
pub proof fn law_ticks_are_a_run(start: Phase, cfg: Intervals, n: nat)
    ensures
        start.ticked(cfg, n) == start.run(cfg, Seq::new(n, |i: int| Event::Tick)),
    decreases n,
{
    let ticks = Seq::new(n, |i: int| Event::Tick);
    if n > 0 {
        law_ticks_are_a_run(start, cfg, (n - 1) as nat);
        assert(ticks.drop_last() =~= Seq::new((n - 1) as nat, |i: int| Event::Tick));
    }
}

/// The rounded-up quotient `n` of a positive `remaining` by a positive `tick`
/// is the least count of ticks that covers it.
proof fn lemma_ticks_to_cover_bounds(remaining: int, tick: int)
    requires
        remaining > 0,
        tick > 0,
    ensures
        ticks_to_cover(remaining, tick) >= 1,
        (ticks_to_cover(remaining, tick) - 1) * tick < remaining,
        remaining <= ticks_to_cover(remaining, tick) * tick,
{
    let padded = remaining + tick - 1;
    let n = ticks_to_cover(remaining, tick);
    lemma_fundamental_div_mod(padded, tick);
    lemma_mod_bound(padded, tick);
    lemma_mul_is_distributive_sub_other_way(tick, n, 1);
    assert(tick * n == n * tick) by (nonlinear_arith);
    if n < 1 {
        lemma_mul_inequality(n, 0, tick);
    }
}

/// While the ticks made so far leave time over, an undisturbed work interval
/// is still running, with that time left.
proof fn lemma_running_until_covered(remaining: int, cfg: Intervals, k: nat)
    requires
        k * cfg.tick < remaining,
    ensures
        (Phase::Running { remaining, pause_requested: false }).ticked(cfg, k) == (Phase::Running {
            remaining: remaining - k * cfg.tick,
            pause_requested: false,
        }),
    decreases k,
{
    let start = Phase::Running { remaining, pause_requested: false };
    if k > 0 {
        let j = (k - 1) as nat;
        assert(j * cfg.tick == k * cfg.tick - cfg.tick) by (nonlinear_arith)
            requires
                j == k - 1,
        ;
        lemma_running_until_covered(remaining, cfg, j);
        assert(start.ticked(cfg, k) == start.ticked(cfg, j).stepped(cfg));
    } else {
        assert(k * cfg.tick == 0) by (nonlinear_arith)
            requires
                k == 0,
        ;
    }
}

/// A work interval that nobody pauses ends on time. Started with `remaining`
/// left and stepped with ticks of length `tick`, the machine is at rest after
/// exactly `remaining / tick` ticks, rounded up, and is running before.
pub proof fn law_work_interval_ends_on_time(remaining: int, cfg: Intervals)
    requires
        0 < remaining,
        0 < cfg.tick,
    ensures
        ticks_to_cover(remaining, cfg.tick as int) >= 1,
        (Phase::Running { remaining, pause_requested: false }).ticked(
            cfg,
            ticks_to_cover(remaining, cfg.tick as int) as nat,
        ) == (Phase::InBetween { remaining: cfg.rest as int }),
        forall|k: nat|
            k < ticks_to_cover(remaining, cfg.tick as int) ==> #[trigger] (Phase::Running {
                remaining,
                pause_requested: false,
            }).ticked(cfg, k) == (Phase::Running {
                remaining: remaining - k * cfg.tick,
                pause_requested: false,
            }),
{
    let tick = cfg.tick as int;
    let n = ticks_to_cover(remaining, tick);
    let start = Phase::Running { remaining, pause_requested: false };
    lemma_ticks_to_cover_bounds(remaining, tick);
    assert forall|k: nat| k < n implies #[trigger] start.ticked(cfg, k) == (Phase::Running {
        remaining: remaining - k * cfg.tick,
        pause_requested: false,
    }) by {
        lemma_mul_inequality(k as int, n - 1, tick);
        lemma_running_until_covered(remaining, cfg, k);
    }
    let last = (n - 1) as nat;
    assert(start.ticked(cfg, last) == (Phase::Running {
        remaining: remaining - last * cfg.tick,
        pause_requested: false,
    }));
    assert(n * tick == (n - 1) * tick + tick) by (nonlinear_arith);
    assert(start.ticked(cfg, n as nat) == start.ticked(cfg, last).stepped(cfg));
}

/// A work interval that starts with no time left is over after one tick.
pub proof fn law_empty_work_interval_ends_at_once(cfg: Intervals)
    ensures
        (Phase::Running { remaining: 0, pause_requested: false }).ticked(cfg, 1) == (
        Phase::InBetween { remaining: cfg.rest as int }),
{
    let start = Phase::Running { remaining: 0, pause_requested: false };
    assert(start.ticked(cfg, 1) == start.ticked(cfg, 0).stepped(cfg));
}

/// A paused machine to which nothing is delivered stays as it is, however
/// many ticks pass.
pub proof fn law_paused_stands_still(remaining: int, cfg: Intervals, n: nat)
    ensures
        (Phase::Paused { remaining, resume_requested: false }).ticked(cfg, n) == (Phase::Paused {
            remaining,
            resume_requested: false,
        }),
    decreases n,
{
    if n > 0 {
        law_paused_stands_still(remaining, cfg, (n - 1) as nat);
    }
}

/// A machine that is at rest, or running with no pause pending, does not
/// get paused by ticks alone.
proof fn lemma_ticks_alone_never_pause(start: Phase, cfg: Intervals, n: nat)
    requires
        start is InBetween || (start is Running && !start.pause_requested()),
    ensures
        start.ticked(cfg, n) is InBetween || (start.ticked(cfg, n) is Running && !start.ticked(
            cfg,
            n,
        ).pause_requested()),
    decreases n,
{
    if n > 0 {
        lemma_ticks_alone_never_pause(start, cfg, (n - 1) as nat);
    }
}

/// Ticks add up: `m` ticks after `k` ticks are `k + m` ticks.
proof fn lemma_ticks_compose(start: Phase, cfg: Intervals, k: nat, m: nat)
    ensures
        start.ticked(cfg, k).ticked(cfg, m) == start.ticked(cfg, k + m),
    decreases m,
{
    if m > 0 {
        lemma_ticks_compose(start, cfg, k, (m - 1) as nat);
        assert((k + m - 1) as nat == k + (m - 1) as nat);
    }
}

/// Pause freezes time. After a running machine took a pause request, the
/// ticks that follow take nothing off the time left: whenever the machine is
/// paused, the time left is what it was at the request. Where time was left
/// at the request, the machine is paused from the next tick on.
pub proof fn law_pause_freezes_time(remaining: int, pending: bool, cfg: Intervals, n: nat)
    ensures
        ({
            let requested = (Phase::Running { remaining, pause_requested: pending })
                .pause_delivered();
            let after = requested.ticked(cfg, n);
            &&& after is Paused ==> after.remaining() == remaining
            &&& remaining != 0 && n >= 1 ==> after == (Phase::Paused {
                remaining,
                resume_requested: false,
            })
        }),
    decreases n,
{
    let requested = (Phase::Running { remaining, pause_requested: pending }).pause_delivered();
    if n > 0 {
        law_pause_freezes_time(remaining, pending, cfg, (n - 1) as nat);
        if remaining == 0 && n > 1 {
            // With no time left the first tick ends the work interval, and
            // the ticks after it find a machine that nothing has paused.
            let rest = requested.ticked(cfg, 1);
            assert(rest == requested.ticked(cfg, 0).stepped(cfg));
            lemma_ticks_compose(requested, cfg, 1, (n - 1) as nat);
            lemma_ticks_alone_never_pause(rest, cfg, (n - 1) as nat);
        }
    }
}

/// Resume keeps the value. The step after a paused machine took a resume
/// request brings it back to work with exactly the time that was left in the
/// pause, and with no pause pending.
pub proof fn law_resume_restores_time(remaining: int, pending: bool, cfg: Intervals)
    ensures
        (Phase::Paused { remaining, resume_requested: pending }).resume_delivered().stepped(cfg)
            == (Phase::Running { remaining, pause_requested: false }),
{
}

/// A pause of any length costs no time: pause request, one or more ticks,
/// resume request, one tick, and the machine is running with the time that
/// was left when the pause was requested.
pub proof fn law_pause_then_resume_loses_nothing(remaining: int, cfg: Intervals, n: nat)
    requires
        remaining != 0,
        n >= 1,
    ensures
        (Phase::Running { remaining, pause_requested: false }).pause_delivered().ticked(
            cfg,
            n,
        ).resume_delivered().stepped(cfg) == (Phase::Running { remaining, pause_requested: false }),
{
    law_pause_freezes_time(remaining, false, cfg, n);
}

/// A request that finds the wrong state is discarded: a resume request
/// changes nothing unless the machine is paused, a pause request changes
/// nothing unless it is running.
pub proof fn law_misdirected_request_changes_nothing(phase: Phase)
    ensures
        !(phase is Paused) ==> phase.resume_delivered() == phase,
        !(phase is Running) ==> phase.pause_delivered() == phase,
{
}

/// A press of the button reaches at most one state: it asks a running
/// machine to pause and a paused one to resume, sets no other flag, and
/// leaves every other machine as it was.
pub proof fn law_press_is_one_request(phase: Phase)
    ensures
        phase is Running ==> phase.pressed() == phase.pause_delivered(),
        phase is Paused ==> phase.pressed() == phase.resume_delivered(),
        !(phase is Running) && !(phase is Paused) ==> phase.pressed() == phase,
        phase.pressed().kind() == phase.kind(),
        phase.pressed().remaining() == phase.remaining(),
{
}

/// A state that a step enters has no request pending: requests do not
/// outlive the state they were sent to.
pub proof fn law_entered_state_has_no_request_pending(phase: Phase, cfg: Intervals)
    ensures
        phase.stepped(cfg).kind() != phase.kind() ==> !phase.stepped(cfg).pause_requested()
            && !phase.stepped(cfg).resume_requested(),
{
}

} // verus!
