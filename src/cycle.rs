//! The rounds of a reader or writer task, as a machine from phase and event
//! to next phase and action. The caller performs each action (takes the lock,
//! sleeps, prints) and hands back what came of it.
use vstd::prelude::*;
use crate::holders::Access;
use crate::delay::{allowed, DelayPolicy, Delays};

verus! {

#[derive(PartialEq, Eq, Structural, Clone, Copy, Debug)]
pub enum Role {
    /// Holds the shared lock for its delay, then reports.
    Reader,
    /// Takes the exclusive lock, reports while holding it, releases it, then
    /// rests for its delay.
    Writer,
}

#[derive(PartialEq, Eq, Structural, Clone, Copy, Debug)]
pub enum Phase {
    /// Between rounds.
    Idle,
    /// Blocked on the lock; `delay_ms` is the delay chosen for the round.
    Waiting { delay_ms: u64 },
    /// A reader holding the lock after waiting `waited_us` for it.
    Holding { delay_ms: u64, waited_us: u64 },
    /// A writer that reported and is to release the lock and rest.
    Resting { delay_ms: u64 },
    /// The lock was found poisoned: the task is to end the process.
    Failed,
}

#[derive(PartialEq, Eq, Structural, Clone, Copy, Debug)]
pub enum Event {
    /// The last action was carried out.
    Done,
    /// The lock was granted after `waited_us` microseconds.
    Granted { waited_us: u64 },
    /// The lock was found poisoned.
    Poisoned,
}

#[derive(PartialEq, Eq, Structural, Clone, Copy, Debug)]
pub enum Report {
    Reader { waited_us: u64, held_ms: u64 },
    Writer { waited_us: u64 },
}

#[derive(PartialEq, Eq, Structural, Clone, Copy, Debug)]
pub enum Action {
    /// Block until the lock is granted in this mode.
    Acquire(Access),
    /// Sleep this many milliseconds while holding the lock.
    Hold(u64),
    /// Release the lock, then print the report.
    ReleaseAndReport(Report),
    /// Print the report while holding the lock, then release it.
    ReportAndRelease(Report),
    /// Sleep this many milliseconds with the lock released.
    Rest(u64),
    /// End the process: the lock taken in this mode is poisoned.
    Abort(Access),
    /// The event was not one the phase awaits; nothing to do.
    Nothing,
}

pub open spec fn access_of(role: Role) -> Access {
    match role {
        Role::Reader => Access::Shared,
        Role::Writer => Access::Exclusive,
    }
}

/// The next phase and action, where `fresh_ms` is the delay chosen for the
/// round that starts, if one starts.
pub open spec fn next(role: Role, phase: Phase, event: Event, fresh_ms: u64) -> (Phase, Action) {
    match phase {
        Phase::Failed => (Phase::Failed, Action::Abort(access_of(role))),
        Phase::Idle => match event {
            Event::Done => (Phase::Waiting { delay_ms: fresh_ms }, Action::Acquire(access_of(role))),
            _ => (phase, Action::Nothing),
        },
        Phase::Waiting { delay_ms } => match event {
            Event::Granted { waited_us } => match role {
                Role::Reader => (
                    Phase::Holding { delay_ms, waited_us },
                    Action::Hold(delay_ms),
                ),
                Role::Writer => (
                    Phase::Resting { delay_ms },
                    Action::ReportAndRelease(Report::Writer { waited_us }),
                ),
            },
            Event::Poisoned => (Phase::Failed, Action::Abort(access_of(role))),
            Event::Done => (phase, Action::Nothing),
        },
        Phase::Holding { delay_ms, waited_us } => match event {
            Event::Done => (
                Phase::Idle,
                Action::ReleaseAndReport(Report::Reader { waited_us, held_ms: delay_ms }),
            ),
            _ => (phase, Action::Nothing),
        },
        Phase::Resting { delay_ms } => match event {
            Event::Done => (Phase::Idle, Action::Rest(delay_ms)),
            _ => (phase, Action::Nothing),
        },
    }
}

/// Whether the phase starts a round on this event, drawing a fresh delay.
pub open spec fn starts_round(phase: Phase, event: Event) -> bool {
    phase == Phase::Idle && event == Event::Done
}

pub fn access_for(role: Role) -> (r: Access)
    ensures
        r == access_of(role),
{
    match role {
        Role::Reader => Access::Shared,
        Role::Writer => Access::Exclusive,
    }
}

/// One step of the machine, with `fresh_ms` the delay for a round that
/// starts.
pub fn step(role: Role, phase: Phase, event: Event, fresh_ms: u64) -> (r: (Phase, Action))
    ensures
        r == next(role, phase, event, fresh_ms),
{
    match phase {
        Phase::Failed => (Phase::Failed, Action::Abort(access_for(role))),
        Phase::Idle => match event {
            Event::Done => (Phase::Waiting { delay_ms: fresh_ms }, Action::Acquire(access_for(role))),
            _ => (phase, Action::Nothing),
        },
        Phase::Waiting { delay_ms } => match event {
            Event::Granted { waited_us } => match role {
                Role::Reader => (
                    Phase::Holding { delay_ms, waited_us },
                    Action::Hold(delay_ms),
                ),
                Role::Writer => (
                    Phase::Resting { delay_ms },
                    Action::ReportAndRelease(Report::Writer { waited_us }),
                ),
            },
            Event::Poisoned => (Phase::Failed, Action::Abort(access_for(role))),
            Event::Done => (phase, Action::Nothing),
        },
        Phase::Holding { delay_ms, waited_us } => match event {
            Event::Done => (
                Phase::Idle,
                Action::ReleaseAndReport(Report::Reader { waited_us, held_ms: delay_ms }),
            ),
            _ => (phase, Action::Nothing),
        },
        Phase::Resting { delay_ms } => match event {
            Event::Done => (Phase::Idle, Action::Rest(delay_ms)),
            _ => (phase, Action::Nothing),
        },
    }
}

/// A reader or writer task: its role, its phase and where its delays come
/// from.
pub struct Task {
    role: Role,
    phase: Phase,
    delays: Delays,
}

impl Task {
    pub closed spec fn role_spec(&self) -> Role {
        self.role
    }

    pub closed spec fn phase_spec(&self) -> Phase {
        self.phase
    }

    pub closed spec fn policy_spec(&self) -> DelayPolicy {
        self.delays.policy()
    }

    /// A task between rounds.
    pub fn new(role: Role, policy: DelayPolicy) -> (r: Task)
        ensures
            r.role_spec() == role,
            r.phase_spec() == Phase::Idle,
            r.policy_spec() == policy,
    {
        Task { role, phase: Phase::Idle, delays: Delays::new(policy) }
    }

    pub fn role(&self) -> (r: Role)
        ensures
            r == self.role_spec(),
    {
        self.role
    }

    pub fn phase(&self) -> (r: Phase)
        ensures
            r == self.phase_spec(),
    {
        self.phase
    }

    /// Takes the event that came of the last action and gives the next
    /// action. A round that starts gets a delay that the policy allows.
    pub fn advance(&mut self, event: Event) -> (r: Action)
        ensures
            final(self).role_spec() == old(self).role_spec(),
            final(self).policy_spec() == old(self).policy_spec(),
            exists|fresh_ms: u64|
                #![trigger next(old(self).role_spec(), old(self).phase_spec(), event, fresh_ms)]
                (starts_round(old(self).phase_spec(), event) ==> allowed(
                    old(self).policy_spec(),
                    fresh_ms as nat,
                )) && (final(self).phase_spec(), r) == next(
                    old(self).role_spec(),
                    old(self).phase_spec(),
                    event,
                    fresh_ms,
                ),
    {
        let fresh_ms: u64 = if self.phase == Phase::Idle && event == Event::Done {
            self.delays.next_ms()
        } else {
            0
        };
        let (phase, action) = step(self.role, self.phase, event, fresh_ms);
        self.phase = phase;
        assert((self.phase, action) == next(self.role, old(self).phase, event, fresh_ms));
        action
    }
}

/// A reader's round reports exactly what happened in it: the wait that was
/// measured when the lock was granted, and the delay it was held for, which is
/// the delay chosen when the round started. The round ends between rounds.
pub proof fn lemma_reader_round(delay_ms: u64, waited_us: u64, unused_ms: u64)
    ensures
        next(Role::Reader, Phase::Idle, Event::Done, delay_ms) == (
            Phase::Waiting { delay_ms },
            Action::Acquire(Access::Shared),
        ),
        next(Role::Reader, Phase::Waiting { delay_ms }, Event::Granted { waited_us }, unused_ms)
            == (Phase::Holding { delay_ms, waited_us }, Action::Hold(delay_ms)),
        next(Role::Reader, Phase::Holding { delay_ms, waited_us }, Event::Done, unused_ms) == (
            Phase::Idle,
            Action::ReleaseAndReport(Report::Reader { waited_us, held_ms: delay_ms }),
        ),
{
}

/// With a fixed delay every reader round holds the lock, and reports holding
/// it, for that delay.
pub proof fn lemma_fixed_hold_reported(k: u64, delay_ms: u64, waited_us: u64, unused_ms: u64)
    requires
        allowed(DelayPolicy::Fixed(k), delay_ms as nat),
    ensures
        next(Role::Reader, Phase::Holding { delay_ms, waited_us }, Event::Done, unused_ms).1
            == Action::ReleaseAndReport(Report::Reader { waited_us, held_ms: k }),
        next(Role::Reader, Phase::Waiting { delay_ms }, Event::Granted { waited_us }, unused_ms).1
            == Action::Hold(k),
{
}

/// A writer's round reports the wait that was measured, while it holds the
/// lock, and then rests for the delay chosen when the round started.
pub proof fn lemma_writer_round(delay_ms: u64, waited_us: u64, unused_ms: u64)
    ensures
        next(Role::Writer, Phase::Idle, Event::Done, delay_ms) == (
            Phase::Waiting { delay_ms },
            Action::Acquire(Access::Exclusive),
        ),
        next(Role::Writer, Phase::Waiting { delay_ms }, Event::Granted { waited_us }, unused_ms)
            == (
            Phase::Resting { delay_ms },
            Action::ReportAndRelease(Report::Writer { waited_us }),
        ),
        next(Role::Writer, Phase::Resting { delay_ms }, Event::Done, unused_ms) == (
            Phase::Idle,
            Action::Rest(delay_ms),
        ),
{
}

/// A task never stops on its own: unless the lock is found poisoned, no step
/// fails the task or asks to end the process.
pub proof fn lemma_runs_until_poisoned(role: Role, phase: Phase, event: Event, fresh_ms: u64)
    requires
        phase != Phase::Failed,
        event != Event::Poisoned,
    ensures
        next(role, phase, event, fresh_ms).0 != Phase::Failed,
        !(next(role, phase, event, fresh_ms).1 is Abort),
{
}

/// A task that found the lock poisoned while waiting for it asks to end the
/// process, and keeps asking whatever follows.
pub proof fn lemma_poisoned_is_fatal(
    role: Role,
    delay_ms: u64,
    fresh_ms: u64,
    later: Event,
    later_ms: u64,
)
    ensures
        next(role, Phase::Waiting { delay_ms }, Event::Poisoned, fresh_ms) == (
            Phase::Failed,
            Action::Abort(access_of(role)),
        ),
        next(role, Phase::Failed, later, later_ms) == (Phase::Failed, Action::Abort(access_of(role))),
{
}

/// The message with which a task ends the process on a poisoned lock.
pub fn poison_message(access: Access) -> (r: &'static str)
    ensures
        access == Access::Shared ==> r@ == "Poisoned read lock!"@,
        access == Access::Exclusive ==> r@ == "Poisoned write lock!"@,
{
    match access {
        Access::Shared => "Poisoned read lock!",
        Access::Exclusive => "Poisoned write lock!",
    }
}

} // verus!
