use sidecar_supervisor::process::{Effect, Query, Reply};
use sidecar_supervisor::shutdown::{
    final_exit_effects, ShutdownCoordinator, ShutdownNext, ShutdownStep, FORCED_POLLS,
    GRACEFUL_POLLS, GRACEFUL_SHUTDOWN_TIMEOUT_SECS, POLL_INTERVAL_MS,
};
use sidecar_supervisor::state::{ShutdownPhase, SupervisorState};

/// A small stand-in for the operating system's process table.
struct World {
    alive: Vec<u32>,
    children: Vec<(u32, u32)>,
    heeds_graceful: bool,
    heeds_forceful: bool,
    exits_after_ms: Option<u64>,
    slept_ms: u64,
    handle_kills: u32,
    sweeps: u32,
    log: Vec<Effect>,
    queries: Vec<Query>,
}

impl World {
    fn new(alive: &[u32], children: &[(u32, u32)]) -> World {
        World {
            alive: alive.to_vec(),
            children: children.to_vec(),
            heeds_graceful: true,
            heeds_forceful: true,
            exits_after_ms: None,
            slept_ms: 0,
            handle_kills: 0,
            sweeps: 0,
            log: Vec::new(),
            queries: Vec::new(),
        }
    }

    fn kill(&mut self, pid: u32) {
        self.alive.retain(|p| *p != pid);
    }

    fn kill_children(&mut self, pid: u32) {
        // Children are found through a parent that is still alive only.
        if self.alive.contains(&pid) {
            let found: Vec<u32> =
                self.children.iter().filter(|(p, _)| *p == pid).map(|(_, c)| *c).collect();
            for c in found {
                self.kill(c);
            }
        }
    }

    fn perform(&mut self, effect: Effect, handle: &mut Option<u32>) {
        self.log.push(effect);
        match effect {
            Effect::KillHandle => {
                if handle.take().is_some() {
                    self.handle_kills += 1;
                }
            }
            Effect::SendGraceful { pid } => {
                if self.heeds_graceful {
                    self.kill_children(pid);
                    self.kill(pid);
                }
            }
            Effect::SendForceful { pid } => {
                if self.heeds_forceful {
                    self.kill_children(pid);
                    self.kill(pid);
                }
            }
            Effect::KillChildren { pid } => self.kill_children(pid),
            Effect::KillByName => {
                self.sweeps += 1;
                self.alive.clear();
            }
            Effect::Sleep { millis } => {
                self.slept_ms += millis;
                if let Some(limit) = self.exits_after_ms {
                    if self.slept_ms >= limit {
                        self.alive.clear();
                    }
                }
            }
        }
    }

    fn answer(&mut self, query: &Query) -> Reply {
        self.queries.push(query.clone());
        match query {
            Query::ListChildren { pid } => Reply::Pids(
                self.children
                    .iter()
                    .filter(|(p, c)| p == pid && self.alive.contains(c))
                    .map(|(_, c)| *c)
                    .collect(),
            ),
            Query::ListByName => Reply::Pids(self.alive.clone()),
            Query::Poll { targets } => {
                Reply::Statuses(targets.iter().map(|t| self.alive.contains(t)).collect())
            }
        }
    }
}

fn drive(state: &mut SupervisorState<u32>, world: &mut World) -> bool {
    let (mut machine, mut step) = ShutdownCoordinator::begin(state);
    loop {
        let ShutdownStep { effects, handle, next } = step;
        let mut handle = handle;
        for effect in effects {
            world.perform(effect, &mut handle);
        }
        match next {
            ShutdownNext::Finished { graceful } => {
                assert_eq!(machine.outcome(), Some(graceful));
                return graceful;
            }
            ShutdownNext::Ask(query) => {
                assert_eq!(machine.outcome(), None);
                let reply = world.answer(&query);
                step = machine.advance(state, reply);
            }
        }
    }
}

fn started(pid: u32, handle: Option<u32>) -> SupervisorState<u32> {
    let mut state = SupervisorState::new();
    state.set_backend_port(18080);
    state.record_spawn(pid, handle);
    state
}

fn assert_clean(state: &SupervisorState<u32>) {
    assert!(!state.is_started());
    assert_eq!(state.worker_pid(), 0);
    assert!(!state.has_handle());
}

#[test]
fn shutdown_constants_match_the_timeout() {
    assert_eq!(GRACEFUL_SHUTDOWN_TIMEOUT_SECS, 5);
    assert_eq!(POLL_INTERVAL_MS, 100);
    assert_eq!(GRACEFUL_POLLS as u64, GRACEFUL_SHUTDOWN_TIMEOUT_SECS * 1000 / POLL_INTERVAL_MS);
    assert_eq!(FORCED_POLLS, 10);
}

#[test]
fn shutdown_without_pid_sweeps_by_name_and_is_graceful() {
    let mut state: SupervisorState<u32> = SupervisorState::new();
    let mut world = World::new(&[900], &[]);
    let graceful = drive(&mut state, &mut world);
    assert!(graceful);
    assert_eq!(world.log, vec![Effect::KillByName]);
    assert_eq!(world.sweeps, 1);
    assert!(world.queries.is_empty());
    assert_clean(&state);
}

#[test]
fn shutdown_without_pid_clears_a_started_flag_and_handle() {
    let mut state = started(41, Some(7));
    state.worker_exited();
    assert!(state.has_handle());
    let (machine, step) = ShutdownCoordinator::begin(&mut state);
    assert_eq!(machine.outcome(), Some(true));
    assert_eq!(step.effects, vec![Effect::KillByName]);
    assert_eq!(step.next, ShutdownNext::Finished { graceful: true });
    assert!(step.handle.is_none());
    assert_clean(&state);
}

#[test]
fn shutdown_snapshots_children_before_any_signal() {
    let mut state = started(100, None);
    let mut world = World::new(&[100, 101], &[(100, 101)]);
    let graceful = drive(&mut state, &mut world);
    assert!(graceful);
    assert_eq!(world.queries[0], Query::ListChildren { pid: 100 });
    assert_eq!(world.queries[1], Query::Poll { targets: vec![100] });
    assert_eq!(
        world.log,
        vec![
            Effect::KillHandle,
            Effect::SendGraceful { pid: 100 },
            Effect::SendGraceful { pid: 101 },
            Effect::Sleep { millis: 100 },
        ]
    );
    assert!(world.alive.is_empty());
    assert_clean(&state);
}

#[test]
fn shutdown_kills_an_orphaned_child_within_the_budget() {
    // The parent heeds the signal at once; the child ignores it and is not
    // found through its parent any more.
    let mut state = started(100, None);
    let mut world = World::new(&[100, 101], &[(100, 101)]);
    world.heeds_graceful = false;
    let (mut machine, step) = ShutdownCoordinator::begin(&mut state);
    assert!(step.effects.is_empty());
    let step = machine.advance(&mut state, world.answer(&Query::ListChildren { pid: 100 }));
    assert!(step.effects.is_empty());
    let mut step = machine.advance(&mut state, Reply::Statuses(vec![true]));
    world.kill(100);
    let graceful = loop {
        let ShutdownStep { effects, handle, next } = step;
        let mut handle = handle;
        for effect in effects {
            world.perform(effect, &mut handle);
        }
        match next {
            ShutdownNext::Finished { graceful } => break graceful,
            ShutdownNext::Ask(query) => {
                let reply = world.answer(&query);
                step = machine.advance(&mut state, reply);
            }
        }
    };
    assert!(!graceful);
    assert!(world.log.contains(&Effect::SendForceful { pid: 101 }));
    assert!(!world.alive.contains(&101));
    assert!(world.slept_ms <= 6000);
    assert_clean(&state);
}

#[test]
fn shutdown_of_an_exited_worker_reaps_its_children() {
    // Of the two children listed, 101 is gone by the time it is polled.
    let mut state = started(100, Some(1));
    let mut world = World::new(&[101, 102], &[(100, 101), (100, 102)]);
    let (mut machine, _) = ShutdownCoordinator::begin(&mut state);
    let step = machine.advance(&mut state, Reply::Pids(vec![101, 102]));
    assert_eq!(step.next, ShutdownNext::Ask(Query::Poll { targets: vec![100] }));
    world.kill(101);
    let step = machine.advance(&mut state, Reply::Statuses(vec![false]));
    assert!(step.effects.is_empty());
    assert_eq!(step.next, ShutdownNext::Ask(Query::Poll { targets: vec![101, 102] }));
    assert!(state.has_handle());
    let reply = world.answer(&Query::Poll { targets: vec![101, 102] });
    assert_eq!(reply, Reply::Statuses(vec![false, true]));
    let step = machine.advance(&mut state, reply);
    assert_eq!(step.effects, vec![Effect::SendForceful { pid: 102 }]);
    assert_eq!(step.next, ShutdownNext::Finished { graceful: true });
    assert!(step.handle.is_none());
    let mut none = None;
    for effect in step.effects {
        world.perform(effect, &mut none);
    }
    assert!(world.alive.is_empty());
    assert_eq!(world.slept_ms, 0);
    assert_eq!(world.handle_kills, 0);
    assert_clean(&state);
}

#[test]
fn shutdown_of_an_exited_worker_without_children_does_nothing() {
    let mut state = started(100, None);
    let mut world = World::new(&[], &[]);
    let graceful = drive(&mut state, &mut world);
    assert!(graceful);
    assert!(world.log.is_empty());
    assert_eq!(
        world.queries,
        vec![Query::ListChildren { pid: 100 }, Query::Poll { targets: vec![100] }]
    );
    assert_clean(&state);
}

#[test]
fn shutdown_of_an_exited_worker_kills_every_child_after_an_unclear_poll() {
    let mut state = started(100, None);
    let (mut machine, _) = ShutdownCoordinator::begin(&mut state);
    machine.advance(&mut state, Reply::Pids(vec![101, 102]));
    machine.advance(&mut state, Reply::Statuses(vec![false]));
    let step = machine.advance(&mut state, Reply::Statuses(vec![true]));
    assert_eq!(
        step.effects,
        vec![Effect::SendForceful { pid: 101 }, Effect::SendForceful { pid: 102 }]
    );
    assert_eq!(step.next, ShutdownNext::Finished { graceful: true });
}

#[test]
fn shutdown_hands_the_handle_out_exactly_once() {
    let mut state = started(100, Some(55));
    let mut world = World::new(&[100], &[]);
    world.heeds_graceful = false;
    let graceful = drive(&mut state, &mut world);
    assert!(!graceful);
    assert_eq!(world.handle_kills, 1);
    assert_eq!(world.log.iter().filter(|e| **e == Effect::KillHandle).count(), 1);
    assert_clean(&state);
}

#[test]
fn shutdown_escalates_when_the_worker_ignores_the_graceful_signal() {
    let mut state = started(100, None);
    let mut world = World::new(&[100, 101], &[(100, 101)]);
    world.heeds_graceful = false;
    let graceful = drive(&mut state, &mut world);
    assert!(!graceful);
    // 50 looks at 100 ms, then the forced kills and one more look.
    assert_eq!(world.slept_ms, 5100);
    assert!(world.slept_ms <= 5000 + 1000);
    let tail: Vec<Effect> = world.log.iter().rev().take(3).rev().cloned().collect();
    assert_eq!(
        tail,
        vec![
            Effect::SendForceful { pid: 101 },
            Effect::SendForceful { pid: 100 },
            Effect::Sleep { millis: 100 },
        ]
    );
    assert!(world.alive.is_empty());
    assert_eq!(world.sweeps, 0);
    assert_clean(&state);
}

#[test]
fn shutdown_falls_back_to_the_sweep_by_name() {
    let mut state = started(100, None);
    let mut world = World::new(&[100], &[]);
    world.heeds_graceful = false;
    world.heeds_forceful = false;
    let graceful = drive(&mut state, &mut world);
    assert!(!graceful);
    assert_eq!(world.slept_ms, 6000);
    assert_eq!(world.log.last(), Some(&Effect::KillByName));
    assert_eq!(world.sweeps, 1);
    assert_eq!(world.queries.len(), 2 + 50 + 10);
    assert_clean(&state);
}

#[test]
fn shutdown_is_graceful_when_the_worker_exits_late_but_in_time() {
    let mut state = started(100, None);
    let mut world = World::new(&[100], &[]);
    world.heeds_graceful = false;
    world.exits_after_ms = Some(5000);
    let graceful = drive(&mut state, &mut world);
    assert!(graceful);
    assert_eq!(world.slept_ms, 5000);
    assert!(!world.log.contains(&Effect::SendForceful { pid: 100 }));
    assert_clean(&state);
}

#[test]
fn shutdown_treats_a_wrong_reply_as_still_running() {
    let mut state = started(100, None);
    let (mut machine, _) = ShutdownCoordinator::begin(&mut state);
    // A poll answered by a listing names no children.
    let _ = machine.advance(&mut state, Reply::Statuses(vec![false]));
    // A probe answered by a listing counts as running.
    let step = machine.advance(&mut state, Reply::Pids(vec![]));
    assert_eq!(
        step.effects,
        vec![
            Effect::KillHandle,
            Effect::SendGraceful { pid: 100 },
            Effect::Sleep { millis: 100 },
        ]
    );
    // Too few statuses count as running as well.
    let step = machine.advance(&mut state, Reply::Statuses(vec![]));
    assert_eq!(step.effects, vec![Effect::Sleep { millis: 100 }]);
    let step = machine.advance(&mut state, Reply::Statuses(vec![false]));
    assert_eq!(step.next, ShutdownNext::Finished { graceful: true });
    let again = machine.advance(&mut state, Reply::Statuses(vec![true]));
    assert!(again.effects.is_empty());
    assert_eq!(again.next, ShutdownNext::Finished { graceful: true });
}

#[test]
fn shutdown_body_runs_once_for_many_triggers() {
    let mut state = started(100, None);
    let mut world = World::new(&[100], &[]);
    let mut bodies = 0;
    for _ in 0..5 {
        if state.request_shutdown() {
            bodies += 1;
            assert_eq!(state.shutdown_phase(), ShutdownPhase::ShuttingDown);
            drive(&mut state, &mut world);
        }
    }
    assert_eq!(bodies, 1);
    assert!(state.shutdown_in_progress());
    assert_eq!(state.shutdown_phase(), ShutdownPhase::Done);
    assert_eq!(world.log.iter().filter(|e| **e == Effect::SendGraceful { pid: 100 }).count(), 1);
}

#[test]
fn final_exit_kills_what_is_still_recorded() {
    let state = started(321, None);
    assert_eq!(
        final_exit_effects(&state),
        vec![Effect::KillChildren { pid: 321 }, Effect::SendForceful { pid: 321 }]
    );
    let idle: SupervisorState<u32> = SupervisorState::new();
    assert!(final_exit_effects(&idle).is_empty());
}
