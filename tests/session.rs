use rust_bot::session::{
    login_command, LoginPlan, Schedule, SessionState, Stance, TickCommands,
};

fn quiet() -> TickCommands {
    TickCommands { look: None, begin: None, end_jump: false, end_crouch: false }
}

fn spawned_session(credential: Option<&str>, seed: u64) -> SessionState {
    let mut st = SessionState::new(credential.map(|c| c.to_string()));
    let _ = st.on_spawn(seed);
    st
}

#[test]
fn login_command_text() {
    assert_eq!(login_command("hunter2"), "/login hunter2");
    assert_eq!(login_command(""), "/login ");
}

#[test]
fn new_session_is_idle() {
    let st = SessionState::new(Some("pw".to_string()));
    assert_eq!(st.schedule, Schedule::new());
    assert!(!st.schedule.spawned);
    assert!(!st.schedule.login_sent);
    assert_eq!(st.credential.as_deref(), Some("pw"));
}

#[test]
fn spawn_arms_deadlines_relative_to_tick() {
    let mut st = SessionState::new(None);
    st.schedule.tick = 1234;
    let plan = st.on_spawn(7);
    assert!(plan.is_none());
    assert!(st.schedule.spawned);
    assert_eq!(st.schedule.seed, 7);
    assert_eq!(st.schedule.next_look_tick, 1334);
    assert_eq!(st.schedule.next_action_tick, 1534);
    assert_eq!(st.schedule.tick, 1234);
}

#[test]
fn spawn_keeps_an_initialised_seed() {
    let mut st = SessionState::new(None);
    st.schedule.seed = 99;
    let _ = st.on_spawn(7);
    assert_eq!(st.schedule.seed, 99);
}

#[test]
fn spawn_with_credential_arms_login_twice() {
    let mut st = SessionState::new(Some("secret".to_string()));
    let plan: LoginPlan = st.on_spawn(1).expect("login plan");
    assert!(st.schedule.login_sent);
    assert_eq!(plan.command, "/login secret");
    assert_eq!(plan.first_delay_secs, 2);
    assert_eq!(plan.retry_delay_secs, 4);
    for _ in 0..50 {
        let _ = st.on_tick(1);
    }
    assert!(st.schedule.login_sent);
    assert!(st.on_spawn(1).is_none());
}

#[test]
fn spawn_without_credential_never_logs_in() {
    let mut st = SessionState::new(None);
    for _ in 0..3 {
        assert!(st.on_spawn(5).is_none());
        assert!(!st.schedule.login_sent);
        for _ in 0..400 {
            let _ = st.on_tick(5);
            assert!(!st.schedule.login_sent);
        }
        st.on_disconnect();
    }
}

#[test]
fn disconnect_then_spawn_rearms_login() {
    let mut st = spawned_session(Some("pw"), 3);
    assert!(st.schedule.login_sent);
    st.on_disconnect();
    assert!(!st.schedule.spawned);
    assert!(!st.schedule.login_sent);
    let plan = st.on_spawn(3).expect("login re-armed");
    assert_eq!(plan.command, "/login pw");
    assert!(st.schedule.login_sent);
    assert_eq!(st.credential.as_deref(), Some("pw"));
}

#[test]
fn tick_before_spawn_does_nothing() {
    let mut st = SessionState::new(None);
    let before = st.schedule;
    assert_eq!(st.on_tick(11), quiet());
    assert_eq!(st.schedule, before);
}

#[test]
fn ticks_after_disconnect_issue_nothing() {
    let mut st = spawned_session(None, 42);
    for _ in 0..305 {
        let _ = st.on_tick(42);
    }
    st.on_disconnect();
    let frozen = st.schedule;
    for _ in 0..1000 {
        assert_eq!(st.on_tick(42), quiet());
    }
    assert_eq!(st.schedule, frozen);
    let _ = st.on_spawn(42);
    assert!(st.schedule.spawned);
    assert_eq!(st.schedule.next_look_tick, frozen.tick + 100);
}

#[test]
fn look_fires_once_after_one_hundred_ticks() {
    let mut st = spawned_session(None, 42);
    for _ in 0..99 {
        let c = st.on_tick(42);
        assert!(c.look.is_none());
    }
    assert_eq!(st.schedule.next_look_tick, 100);
    let c = st.on_tick(42);
    let look = c.look.expect("look at tick 100");
    assert_eq!(st.schedule.tick, 100);
    assert_eq!(st.schedule.next_look_tick, 200);
    assert_eq!(look.yaw_draw, 2104627054);
    assert_eq!(look.pitch_draw, 2013331137);
}

#[test]
fn full_trace_from_seed_42() {
    let mut st = spawned_session(None, 42);
    let mut looks: Vec<u64> = Vec::new();
    let mut events: Vec<(u64, &str)> = Vec::new();
    for _ in 0..699 {
        let c = st.on_tick(42);
        let t = st.schedule.tick;
        if c.look.is_some() {
            looks.push(t);
        }
        match c.begin {
            Some(Stance::Jump) => events.push((t, "jump")),
            Some(Stance::Crouch) => events.push((t, "crouch")),
            None => {}
        }
        if c.end_jump {
            events.push((t, "end jump"));
        }
        if c.end_crouch {
            events.push((t, "end crouch"));
        }
    }
    assert_eq!(looks, vec![100, 200, 300, 400, 500, 600]);
    assert_eq!(
        events,
        vec![(300, "jump"), (310, "end jump"), (632, "crouch"), (652, "end crouch")]
    );
    assert_eq!(st.schedule.next_action_tick, 967);
    assert_eq!(st.schedule.next_look_tick, 700);
    assert_eq!(st.schedule.seed, 3384112258749510490);
}

#[test]
fn decision_picks_exactly_one_pose_with_bounded_jitter() {
    for seed in 1u64..200 {
        let mut sch = Schedule::new();
        let _ = sch.on_spawn(seed, false);
        sch.next_action_tick = 1;
        sch.next_look_tick = 1000;
        let c = sch.on_tick(seed);
        assert!(c.begin.is_some());
        let jitter = sch.next_action_tick - sch.tick - 300;
        assert!(jitter < 40);
        match c.begin {
            Some(Stance::Jump) => {
                assert_eq!(sch.jump_until, 11);
                assert_eq!(sch.crouch_until, 0);
            }
            Some(Stance::Crouch) => {
                assert_eq!(sch.crouch_until, 21);
                assert_eq!(sch.jump_until, 0);
            }
            None => unreachable!(),
        }
    }
}

#[test]
fn jump_is_released_exactly_ten_ticks_later() {
    let mut sch = Schedule::new();
    let _ = sch.on_spawn(9, false);
    sch.tick = 50;
    sch.jump_until = 60;
    sch.next_action_tick = 400;
    sch.next_look_tick = 400;
    for _ in 0..9 {
        let c = sch.on_tick(9);
        assert!(!c.end_jump);
        assert_eq!(sch.jump_until, 60);
    }
    let c = sch.on_tick(9);
    assert!(c.end_jump);
    assert_eq!(sch.tick, 60);
    assert_eq!(sch.jump_until, 0);
}

#[test]
fn crouch_released_independently_of_new_jump() {
    let mut sch = Schedule::new();
    let _ = sch.on_spawn(9, false);
    sch.tick = 10;
    sch.crouch_until = 15;
    sch.next_action_tick = 1000;
    sch.next_look_tick = 1000;
    for _ in 0..4 {
        assert!(!sch.on_tick(9).end_crouch);
    }
    let c = sch.on_tick(9);
    assert!(c.end_crouch);
    assert!(!c.end_jump);
    assert_eq!(sch.crouch_until, 0);
}

#[test]
fn tick_reseeds_zero_generator_from_fresh_seed() {
    let mut sch = Schedule::new();
    sch.spawned = true;
    sch.next_look_tick = 1;
    sch.next_action_tick = 1000;
    assert_eq!(sch.seed, 0);
    let c = sch.on_tick(42);
    assert_eq!(c.look.map(|l| l.yaw_draw), Some(2104627054));
    assert_eq!(sch.seed, 8647191391818483560);
}

#[test]
fn spawn_leaves_a_nonzero_seed() {
    let mut st = SessionState::new(None);
    assert_eq!(st.schedule.seed, 0);
    let _ = st.on_spawn(rust_bot::rng::init_seed(Some(0)));
    assert_eq!(st.schedule.seed, 0x1234_5678);
}
