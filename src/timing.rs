//! Properties of the schedule over runs of tick events.
use crate::session::{
    disconnect_next, login_due, quiet, spawn_next, tick_commands, tick_next, Schedule, Stance,
    TickCommands,
    ACTION_INTERVAL, ACTION_JITTER, CROUCH_TICKS, JUMP_TICKS, LOOK_INTERVAL, TICK_LIMIT,
};
use vstd::prelude::*;

verus! {

/// The schedule after the first `n` tick events of a run, the `i`-th of which
/// is handed `fresh[i]` as its fresh seed.
pub open spec fn run(s: Schedule, fresh: Seq<u64>, n: nat) -> Schedule
    decreases n,
{
    if n == 0 {
        s
    } else {
        tick_next(run(s, fresh, (n - 1) as nat), fresh[n - 1])
    }
}

/// The commands of the `k`-th tick event of a run.
pub open spec fn run_commands(s: Schedule, fresh: Seq<u64>, k: nat) -> TickCommands {
    tick_commands(run(s, fresh, k), fresh[k as int])
}

proof fn lemma_look_waits(s: Schedule, fresh: Seq<u64>, k: nat)
    requires
        s.spawned,
        s.next_look_tick == s.tick + LOOK_INTERVAL,
        s.tick + 2 * LOOK_INTERVAL <= TICK_LIMIT,
        k < LOOK_INTERVAL,
    ensures
        run(s, fresh, k).spawned,
        run(s, fresh, k).tick == s.tick + k,
        run(s, fresh, k).next_look_tick == s.next_look_tick,
    decreases k,
{
    if k > 0 {
        lemma_look_waits(s, fresh, (k - 1) as nat);
    }
}

/// Once a look is scheduled a full interval ahead, the next
/// `LOOK_INTERVAL - 1` ticks issue no look, the following one issues exactly
/// one, and the look is then rescheduled one interval after that tick.
pub proof fn law_look_once_per_interval(s: Schedule, fresh: Seq<u64>)
    requires
        s.spawned,
        s.next_look_tick == s.tick + LOOK_INTERVAL,
        s.tick + 2 * LOOK_INTERVAL <= TICK_LIMIT,
        fresh.len() == LOOK_INTERVAL,
    ensures
        forall|k: nat| k < LOOK_INTERVAL - 1 ==> (#[trigger] run_commands(s, fresh, k)).look is None,
        run_commands(s, fresh, (LOOK_INTERVAL - 1) as nat).look is Some,
        run(s, fresh, LOOK_INTERVAL as nat).tick == s.tick + LOOK_INTERVAL,
        run(s, fresh, LOOK_INTERVAL as nat).next_look_tick == s.tick + 2 * LOOK_INTERVAL,
{
    assert forall|k: nat| k < LOOK_INTERVAL - 1 implies (#[trigger] run_commands(
        s,
        fresh,
        k,
    )).look is None by {
        lemma_look_waits(s, fresh, k);
    }
    lemma_look_waits(s, fresh, (LOOK_INTERVAL - 1) as nat);
}

/// A tick starts a pose exactly when the action deadline is reached, and
/// then exactly one: a jump, whose release is set `JUMP_TICKS` ahead, or a
/// crouch, set `CROUCH_TICKS` ahead, the other timer being kept or released
/// on its own schedule. The next decision is then between `ACTION_INTERVAL`
/// and `ACTION_INTERVAL + ACTION_JITTER` (exclusive) ticks ahead.
pub proof fn law_one_pose_per_decision(s: Schedule, fresh: u64)
    requires
        s.spawned,
        s.tick < TICK_LIMIT,
    ensures
        ({
            let t = tick_next(s, fresh);
            let c = tick_commands(s, fresh);
            &&& t.tick == s.tick + 1
            &&& (c.begin is Some <==> t.tick >= s.next_action_tick)
            &&& c.begin is None ==> t.next_action_tick == s.next_action_tick
            &&& c.begin is Some ==> t.tick + ACTION_INTERVAL <= t.next_action_tick
                < t.tick + ACTION_INTERVAL + ACTION_JITTER
            &&& c.begin == Some(Stance::Jump) ==> t.jump_until == t.tick + JUMP_TICKS && (
            t.crouch_until == s.crouch_until || t.crouch_until == 0)
            &&& c.begin == Some(Stance::Crouch) ==> t.crouch_until == t.tick + CROUCH_TICKS && (
            t.jump_until == s.jump_until || t.jump_until == 0)
        }),
{
}

proof fn lemma_jump_holds(s: Schedule, fresh: Seq<u64>, k: nat)
    requires
        s.spawned,
        s.jump_until == s.tick + JUMP_TICKS,
        s.next_action_tick > s.jump_until,
        s.jump_until <= TICK_LIMIT,
        k < JUMP_TICKS,
    ensures
        run(s, fresh, k).spawned,
        run(s, fresh, k).tick == s.tick + k,
        run(s, fresh, k).jump_until == s.jump_until,
        run(s, fresh, k).next_action_tick == s.next_action_tick,
    decreases k,
{
    if k > 0 {
        lemma_jump_holds(s, fresh, (k - 1) as nat);
    }
}

/// A jump armed at tick `T` (release at `T + JUMP_TICKS`, before the next
/// decision) is held through the ticks before `T + JUMP_TICKS` and released,
/// with its end issued, on exactly that tick.
pub proof fn law_jump_released_on_time(s: Schedule, fresh: Seq<u64>)
    requires
        s.spawned,
        s.jump_until == s.tick + JUMP_TICKS,
        s.next_action_tick > s.jump_until,
        s.jump_until <= TICK_LIMIT,
        fresh.len() == JUMP_TICKS,
    ensures
        forall|k: nat|
            k < JUMP_TICKS - 1 ==> !(#[trigger] run_commands(s, fresh, k)).end_jump && run(
                s,
                fresh,
                k + 1,
            ).jump_until == s.jump_until,
        run_commands(s, fresh, (JUMP_TICKS - 1) as nat).end_jump,
        run(s, fresh, JUMP_TICKS as nat).tick == s.jump_until,
        run(s, fresh, JUMP_TICKS as nat).jump_until == 0,
{
    assert forall|k: nat| k < JUMP_TICKS - 1 implies !(#[trigger] run_commands(
        s,
        fresh,
        k,
    )).end_jump && run(s, fresh, k + 1).jump_until == s.jump_until by {
        lemma_jump_holds(s, fresh, k);
        lemma_jump_holds(s, fresh, k + 1);
    }
    lemma_jump_holds(s, fresh, (JUMP_TICKS - 1) as nat);
}

proof fn lemma_idle(s: Schedule, fresh: Seq<u64>, k: nat)
    requires
        !s.spawned,
    ensures
        run(s, fresh, k) == s,
    decreases k,
{
    if k > 0 {
        lemma_idle(s, fresh, (k - 1) as nat);
    }
}

/// After a disconnect, tick events change nothing and issue nothing until
/// the next spawn.
pub proof fn law_idle_after_disconnect(s: Schedule, fresh: Seq<u64>)
    ensures
        forall|k: nat|
            k <= fresh.len() ==> #[trigger] run(disconnect_next(s), fresh, k) == disconnect_next(s),
        forall|k: nat|
            k < fresh.len() ==> #[trigger] run_commands(disconnect_next(s), fresh, k) == quiet(),
{
    assert forall|k: nat| k <= fresh.len() implies #[trigger] run(disconnect_next(s), fresh, k)
        == disconnect_next(s) by {
        lemma_idle(disconnect_next(s), fresh, k);
    }
    assert forall|k: nat| k < fresh.len() implies #[trigger] run_commands(
        disconnect_next(s),
        fresh,
        k,
    ) == quiet() by {
        lemma_idle(disconnect_next(s), fresh, k);
    }
}

/// A disconnect clears the login mark, so that the next spawn with a
/// credential starts the login again, whatever happened before.
pub proof fn law_login_rearmed_after_disconnect(s: Schedule, fresh: u64)
    ensures
        !disconnect_next(s).login_sent,
        login_due(disconnect_next(s), true),
        spawn_next(disconnect_next(s), fresh, true).login_sent,
{
}

} // verus!
