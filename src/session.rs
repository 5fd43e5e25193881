//! Session state of the agent and its reactions to spawn, disconnect and
//! tick events.
//!
//! Every deadline is an absolute tick value; a jump or crouch deadline of `0`
//! means that nothing is active. Ticks only act while the agent is spawned.
use crate::rng::{lcg_next, lcg_step, lcg_value};
use vstd::prelude::*;

verus! {

/// Ticks between two changes of orientation.
pub const LOOK_INTERVAL: u64 = 100;

/// Least number of ticks between two jump-or-crouch decisions.
pub const ACTION_INTERVAL: u64 = 300;

/// Bound (exclusive) of the jitter added to `ACTION_INTERVAL`.
pub const ACTION_JITTER: u32 = 40;

/// Ticks that a jump is held.
pub const JUMP_TICKS: u64 = 10;

/// Ticks that a crouch is held.
pub const CROUCH_TICKS: u64 = 20;

/// Largest tick counter for which the next event still fits in 64 bits.
pub const TICK_LIMIT: u64 = 0xFFFF_FFFF_FFFF_FC00;

/// Seconds from a spawn to the first login command.
pub const LOGIN_FIRST_DELAY_SECS: u64 = 2;

/// Seconds from the first login command to the second one.
pub const LOGIN_RETRY_DELAY_SECS: u64 = 4;

/// Timers, flags and generator state of one session.
#[derive(Clone, Copy, Debug, PartialEq, Eq, Structural)]
pub struct Schedule {
    pub tick: u64,
    pub seed: u64,
    pub next_look_tick: u64,
    pub next_action_tick: u64,
    pub jump_until: u64,
    pub crouch_until: u64,
    pub spawned: bool,
    pub login_sent: bool,
}

/// The pose that an action decision starts.
#[derive(Clone, Copy, Debug, PartialEq, Eq, Structural)]
pub enum Stance {
    Jump,
    Crouch,
}

/// The two raw draws behind an orientation change: the yaw is mapped into
/// `[-90, 90)` degrees and the pitch into `[-30, 30)`.
#[derive(Clone, Copy, Debug, PartialEq, Eq, Structural)]
pub struct LookDraw {
    pub yaw_draw: u32,
    pub pitch_draw: u32,
}

/// Commands that one tick issues, in this order: look, begin a pose, end the
/// jump, end the crouch.
#[derive(Clone, Copy, Debug, PartialEq, Eq, Structural)]
pub struct TickCommands {
    pub look: Option<LookDraw>,
    pub begin: Option<Stance>,
    pub end_jump: bool,
    pub end_crouch: bool,
}

/// The delayed login: `command` is sent after `first_delay_secs`, and once
/// more `retry_delay_secs` later.
#[derive(Clone, Debug)]
pub struct LoginPlan {
    pub command: String,
    pub first_delay_secs: u64,
    pub retry_delay_secs: u64,
}

/// The whole session: its schedule and the credential configured at start.
#[derive(Clone, Debug)]
pub struct SessionState {
    pub schedule: Schedule,
    pub credential: Option<String>,
}

/// A tick that issues nothing.
pub open spec fn quiet() -> TickCommands {
    TickCommands { look: None, begin: None, end_jump: false, end_crouch: false }
}

/// The schedule of a fresh session: every counter zero, not spawned.
pub open spec fn initial_schedule() -> Schedule {
    Schedule {
        tick: 0,
        seed: 0,
        next_look_tick: 0,
        next_action_tick: 0,
        jump_until: 0,
        crouch_until: 0,
        spawned: false,
        login_sent: false,
    }
}

/// The generator state, with `fresh` standing in for an uninitialised `0`.
pub open spec fn seeded(seed: u64, fresh: u64) -> u64 {
    if seed == 0 {
        fresh
    } else {
        seed
    }
}

/// The text of the login command for `credential`.
pub open spec fn login_text(credential: Seq<char>) -> Seq<char> {
    "/login "@ + credential
}

/// Whether a spawn with or without a credential starts the delayed login.
pub open spec fn login_due(s: Schedule, has_credential: bool) -> bool {
    !s.login_sent && has_credential
}

/// The schedule after a spawn event.
pub open spec fn spawn_next(s: Schedule, fresh: u64, has_credential: bool) -> Schedule {
    Schedule {
        spawned: true,
        seed: seeded(s.seed, fresh),
        next_look_tick: (s.tick + LOOK_INTERVAL) as u64,
        next_action_tick: (s.tick + ACTION_INTERVAL) as u64,
        login_sent: s.login_sent || has_credential,
        ..s
    }
}

/// The schedule after a disconnect event.
pub open spec fn disconnect_next(s: Schedule) -> Schedule {
    Schedule { spawned: false, login_sent: false, ..s }
}

/// First phase of a tick: the counter moves on.
pub open spec fn advanced(s: Schedule) -> Schedule {
    Schedule { tick: (s.tick + 1) as u64, ..s }
}

pub open spec fn look_due(s: Schedule) -> bool {
    s.tick >= s.next_look_tick
}

/// Second phase: the orientation change, if due.
pub open spec fn after_look(s: Schedule, fresh: u64) -> Schedule {
    if look_due(s) {
        Schedule {
            seed: lcg_step(lcg_step(seeded(s.seed, fresh))),
            next_look_tick: (s.tick + LOOK_INTERVAL) as u64,
            ..s
        }
    } else {
        s
    }
}

pub open spec fn look_of(s: Schedule, fresh: u64) -> Option<LookDraw> {
    if look_due(s) {
        let s0 = seeded(s.seed, fresh);
        Some(LookDraw { yaw_draw: lcg_value(s0), pitch_draw: lcg_value(lcg_step(s0)) })
    } else {
        None
    }
}

pub open spec fn action_due(s: Schedule) -> bool {
    s.tick >= s.next_action_tick
}

/// The pose chosen from generator state `s0`: a jump on an even draw.
pub open spec fn stance_from(s0: u64) -> Stance {
    if lcg_value(s0) % 2 == 0 {
        Stance::Jump
    } else {
        Stance::Crouch
    }
}

/// The jitter drawn after the pose, from generator state `s1`.
pub open spec fn jitter_from(s1: u64) -> u64 {
    (lcg_value(s1) % ACTION_JITTER) as u64
}

/// Third phase: the jump-or-crouch decision, if due.
pub open spec fn after_action(s: Schedule, fresh: u64) -> Schedule {
    if action_due(s) {
        let s0 = seeded(s.seed, fresh);
        let s1 = lcg_step(s0);
        let jump = stance_from(s0) == Stance::Jump;
        Schedule {
            seed: lcg_step(s1),
            next_action_tick: (s.tick + ACTION_INTERVAL + jitter_from(s1)) as u64,
            jump_until: if jump {
                (s.tick + JUMP_TICKS) as u64
            } else {
                s.jump_until
            },
            crouch_until: if jump {
                s.crouch_until
            } else {
                (s.tick + CROUCH_TICKS) as u64
            },
            ..s
        }
    } else {
        s
    }
}

pub open spec fn begin_of(s: Schedule, fresh: u64) -> Option<Stance> {
    if action_due(s) {
        Some(stance_from(seeded(s.seed, fresh)))
    } else {
        None
    }
}

pub open spec fn jump_release_due(s: Schedule) -> bool {
    s.jump_until != 0 && s.tick >= s.jump_until
}

pub open spec fn crouch_release_due(s: Schedule) -> bool {
    s.crouch_until != 0 && s.tick >= s.crouch_until
}

/// Last phase: expired jump and crouch are released.
pub open spec fn after_release(s: Schedule) -> Schedule {
    Schedule {
        jump_until: if jump_release_due(s) {
            0
        } else {
            s.jump_until
        },
        crouch_until: if crouch_release_due(s) {
            0
        } else {
            s.crouch_until
        },
        ..s
    }
}

/// The schedule after one tick event; `fresh` seeds an uninitialised
/// generator.
pub open spec fn tick_next(s: Schedule, fresh: u64) -> Schedule {
    if s.spawned {
        after_release(after_action(after_look(advanced(s), fresh), fresh))
    } else {
        s
    }
}

/// The commands that one tick event issues.
pub open spec fn tick_commands(s: Schedule, fresh: u64) -> TickCommands {
    if s.spawned {
        let a = advanced(s);
        let l = after_look(a, fresh);
        let c = after_action(l, fresh);
        TickCommands {
            look: look_of(a, fresh),
            begin: begin_of(l, fresh),
            end_jump: jump_release_due(c),
            end_crouch: crouch_release_due(c),
        }
    } else {
        quiet()
    }
}

/// The text of the login command, `/login <credential>`.
pub fn login_command(credential: &str) -> (r: String)
    ensures
        r@ == login_text(credential@),
{
    let mut text = String::from_str("/login ");
    text.append(credential);
    text
}

impl Schedule {
    /// The schedule of a fresh session.
    pub fn new() -> (r: Schedule)
        ensures
            r == initial_schedule(),
    {
        Schedule {
            tick: 0,
            seed: 0,
            next_look_tick: 0,
            next_action_tick: 0,
            jump_until: 0,
            crouch_until: 0,
            spawned: false,
            login_sent: false,
        }
    }

    /// Gives the generator the seed `fresh` if it has none yet.
    fn ensure_seed(&mut self, fresh: u64)
        ensures
            *final(self) == (Schedule { seed: seeded(old(self).seed, fresh), ..*old(self) }),
    {
        if self.seed == 0 {
            self.seed = fresh;
        }
    }

    /// Reacts to a spawn: arms the look and action deadlines relative to the
    /// current tick and, when `has_credential`, marks the login as sent.
    /// Returns whether the login is to be sent now.
    pub fn on_spawn(&mut self, fresh: u64, has_credential: bool) -> (r: bool)
        requires
            old(self).tick <= TICK_LIMIT,
            fresh != 0,
        ensures
            *final(self) == spawn_next(*old(self), fresh, has_credential),
            final(self).seed != 0,
            r == login_due(*old(self), has_credential),
    {
        self.spawned = true;
        self.ensure_seed(fresh);
        self.next_look_tick = self.tick + LOOK_INTERVAL;
        self.next_action_tick = self.tick + ACTION_INTERVAL;
        let send = !self.login_sent && has_credential;
        if send {
            self.login_sent = true;
        }
        send
    }

    /// Reacts to a disconnect: the agent stops acting and the login may be
    /// armed again by the next spawn.
    pub fn on_disconnect(&mut self)
        ensures
            *final(self) == disconnect_next(*old(self)),
    {
        self.spawned = false;
        self.login_sent = false;
    }

    /// Reacts to a tick: moves the counter on, then decides on looking,
    /// on a jump or crouch, and on releasing expired ones. Does nothing
    /// while not spawned.
    pub fn on_tick(&mut self, fresh: u64) -> (r: TickCommands)
        requires
            old(self).spawned ==> old(self).tick < TICK_LIMIT,
            fresh != 0,
        ensures
            *final(self) == tick_next(*old(self), fresh),
            r == tick_commands(*old(self), fresh),
    {
        if !self.spawned {
            return TickCommands { look: None, begin: None, end_jump: false, end_crouch: false };
        }
        self.tick = self.tick + 1;
        let ghost a = *self;

        let mut look: Option<LookDraw> = None;
        if self.tick >= self.next_look_tick {
            self.ensure_seed(fresh);
            let yaw_draw = lcg_next(&mut self.seed);
            let pitch_draw = lcg_next(&mut self.seed);
            look = Some(LookDraw { yaw_draw, pitch_draw });
            self.next_look_tick = self.tick + LOOK_INTERVAL;
        }
        assert(*self == after_look(a, fresh));
        let ghost l = *self;

        let mut begin: Option<Stance> = None;
        if self.tick >= self.next_action_tick {
            self.ensure_seed(fresh);
            let ghost s0 = self.seed;
            if lcg_next(&mut self.seed) % 2 == 0 {
                begin = Some(Stance::Jump);
                self.jump_until = self.tick + JUMP_TICKS;
            } else {
                begin = Some(Stance::Crouch);
                self.crouch_until = self.tick + CROUCH_TICKS;
            }
            let jitter = (lcg_next(&mut self.seed) % ACTION_JITTER) as u64;
            self.next_action_tick = self.tick + ACTION_INTERVAL + jitter;
            assert(begin == Some(stance_from(s0)));
        }
        assert(*self == after_action(l, fresh));
        let ghost c = *self;

        let end_jump = self.jump_until != 0 && self.tick >= self.jump_until;
        if end_jump {
            self.jump_until = 0;
        }
        let end_crouch = self.crouch_until != 0 && self.tick >= self.crouch_until;
        if end_crouch {
            self.crouch_until = 0;
        }
        assert(*self == after_release(c));
        TickCommands { look, begin, end_jump, end_crouch }
    }
}

impl SessionState {
    /// A fresh session holding the configured credential.
    pub fn new(credential: Option<String>) -> (r: SessionState)
        ensures
            r.schedule == initial_schedule(),
            r.credential == credential,
    {
        SessionState { schedule: Schedule::new(), credential }
    }

    /// Reacts to a spawn event (see `Schedule::on_spawn`). Returns the
    /// delayed login to run exactly when a credential is configured and no
    /// login was sent in this spawn episode.
    pub fn on_spawn(&mut self, fresh_seed: u64) -> (r: Option<LoginPlan>)
        requires
            old(self).schedule.tick <= TICK_LIMIT,
            fresh_seed != 0,
        ensures
            final(self).schedule.seed != 0,
            final(self).schedule == spawn_next(
                old(self).schedule,
                fresh_seed,
                old(self).credential is Some,
            ),
            final(self).credential == old(self).credential,
            r is Some <==> login_due(old(self).schedule, old(self).credential is Some),
            r matches Some(p) ==> p.command@ == login_text(old(self).credential->Some_0@)
                && p.first_delay_secs == LOGIN_FIRST_DELAY_SECS
                && p.retry_delay_secs == LOGIN_RETRY_DELAY_SECS,
    {
        let send = self.schedule.on_spawn(fresh_seed, self.credential.is_some());
        if send {
            match &self.credential {
                Some(c) => Some(
                    LoginPlan {
                        command: login_command(c.as_str()),
                        first_delay_secs: LOGIN_FIRST_DELAY_SECS,
                        retry_delay_secs: LOGIN_RETRY_DELAY_SECS,
                    },
                ),
                None => None,
            }
        } else {
            None
        }
    }

    /// Reacts to a disconnect event (see `Schedule::on_disconnect`).
    pub fn on_disconnect(&mut self)
        ensures
            final(self).schedule == disconnect_next(old(self).schedule),
            final(self).credential == old(self).credential,
    {
        self.schedule.on_disconnect();
    }

    /// Reacts to a tick event (see `Schedule::on_tick`).
    pub fn on_tick(&mut self, fresh_seed: u64) -> (r: TickCommands)
        requires
            old(self).schedule.spawned ==> old(self).schedule.tick < TICK_LIMIT,
            fresh_seed != 0,
        ensures
            final(self).schedule == tick_next(old(self).schedule, fresh_seed),
            final(self).credential == old(self).credential,
            r == tick_commands(old(self).schedule, fresh_seed),
    {
        self.schedule.on_tick(fresh_seed)
    }
}

} // verus!
