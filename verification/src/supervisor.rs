//! The life of one operator process: wait for the lease, log in to the
//! vault, serve, and stop.
//!
//! Only the holder of the lease may reconcile. A process starts as a
//! candidate and polls the lease until it holds it; from then on it renews
//! the lease and stops at once when a renewal finds the lease in other
//! hands. [`supervise`] is the whole of these decisions: from where the
//! process stands and what happened to what it does next.

use vstd::prelude::*;

verus! {

/// The name of the lease that the replicas compete for.
pub const LEASE_NAME: &'static str = "bitwarden-secrets-operator";

/// The seconds for which an acquired lease is valid without renewal.
pub const LEASE_TTL_SECS: u64 = 15;

/// The seconds between two polls of the lease, by a candidate and by the
/// holder alike.
pub const LEASE_POLL_SECS: u64 = 5;

/// The exit code of a process that was asked to stop.
pub const EXIT_GRACEFUL: i32 = 0;

/// The exit code of a process that could not start or lost the lease.
pub const EXIT_FATAL: i32 = 1;

/// Why a process stops.
#[derive(Debug, Clone, Copy, PartialEq, Eq, Structural)]
pub enum StopReason {
    /// The process was asked to stop.
    Interrupted,
    /// A candidate could not ask the cluster for the lease.
    LeaseUnavailable,
    /// The login to the vault failed.
    LoginFailed,
    /// A renewal found the lease in other hands.
    LeadershipLost,
}

impl StopReason {
    /// The exit code with which the process stops: zero after an interrupt,
    /// the fatal code otherwise.
    pub open spec fn code(self) -> i32 {
        if self is Interrupted {
            EXIT_GRACEFUL
        } else {
            EXIT_FATAL
        }
    }

    /// The exit code with which the process stops.
    pub fn exit_code(&self) -> (code: i32)
        ensures
            code == self.code(),
            code == 0 <==> self is Interrupted,
    {
        match self {
            StopReason::Interrupted => EXIT_GRACEFUL,
            _ => EXIT_FATAL,
        }
    }
}

/// What a poll of the lease found.
#[derive(Debug, Clone, Copy, PartialEq, Eq, Structural)]
pub enum LeasePoll {
    /// This process holds the lease: it acquired or renewed it.
    Acquired,
    /// Another process holds a lease that is still valid.
    NotAcquired,
    /// The cluster could not be asked.
    Failed,
}

/// What the supervisor is told.
#[derive(Debug, Clone, Copy, PartialEq, Eq, Structural)]
pub enum Event {
    /// A poll of the lease came back.
    LeasePolled(LeasePoll),
    /// The login to the vault yielded a session.
    LoginSucceeded,
    /// The login to the vault failed.
    LoginFailed,
    /// The process was asked to stop.
    Interrupted,
}

/// Where the process stands.
#[derive(Debug, Clone, Copy, PartialEq, Eq, Structural)]
pub enum Phase {
    /// A candidate: it polls the lease and does nothing else.
    AwaitingLease,
    /// The holder of the lease, logging in to the vault.
    LoggingIn,
    /// The holder of the lease, reconciling.
    Serving,
    /// Stopped, for this reason.
    Exited { reason: StopReason },
}

/// What the process does next.
#[derive(Debug, Clone, Copy, PartialEq, Eq, Structural)]
pub enum Directive {
    /// Poll the lease again after this many seconds.
    PollLease { after_secs: u64 },
    /// Log in to the vault, and poll the lease again after this many seconds.
    LogIn { poll_after_secs: u64 },
    /// Start the credential cache and the reconciliation engine.
    StartEngine,
    /// Stop the process, with the exit code of this reason.
    Exit { reason: StopReason },
    /// Nothing: the event has no meaning where the process stands.
    Nothing,
}

/// Whether the process holds the lease in `phase`.
pub open spec fn leads(phase: Phase) -> bool {
    phase is LoggingIn || phase is Serving
}

/// The phase after `event` in `phase`, and what follows from it.
///
/// A process that was asked to stop stops for that reason. A candidate that
/// acquires the lease logs in; one that finds the lease taken polls again;
/// one that cannot ask the cluster stops. A holder that renews polls again,
/// as does one that cannot ask the cluster; one that finds the lease taken
/// stops at once. A login that succeeds starts the engine, one that fails
/// stops the process. Nothing happens to a process that has stopped.
pub open spec fn transition(phase: Phase, event: Event) -> (Phase, Directive) {
    match phase {
        Phase::Exited { reason } => (phase, Directive::Nothing),
        _ => match event {
            Event::Interrupted => (
                Phase::Exited { reason: StopReason::Interrupted },
                Directive::Exit { reason: StopReason::Interrupted },
            ),
            Event::LeasePolled(poll) => if phase is AwaitingLease {
                match poll {
                    LeasePoll::Acquired => (
                        Phase::LoggingIn,
                        Directive::LogIn { poll_after_secs: LEASE_POLL_SECS },
                    ),
                    LeasePoll::NotAcquired => (
                        Phase::AwaitingLease,
                        Directive::PollLease { after_secs: LEASE_POLL_SECS },
                    ),
                    LeasePoll::Failed => (
                        Phase::Exited { reason: StopReason::LeaseUnavailable },
                        Directive::Exit { reason: StopReason::LeaseUnavailable },
                    ),
                }
            } else {
                match poll {
                    LeasePoll::NotAcquired => (
                        Phase::Exited { reason: StopReason::LeadershipLost },
                        Directive::Exit { reason: StopReason::LeadershipLost },
                    ),
                    _ => (phase, Directive::PollLease { after_secs: LEASE_POLL_SECS }),
                }
            },
            Event::LoginSucceeded => if phase is LoggingIn {
                (Phase::Serving, Directive::StartEngine)
            } else {
                (phase, Directive::Nothing)
            },
            Event::LoginFailed => if phase is LoggingIn {
                (
                    Phase::Exited { reason: StopReason::LoginFailed },
                    Directive::Exit { reason: StopReason::LoginFailed },
                )
            } else {
                (phase, Directive::Nothing)
            },
        },
    }
}

/// The phase in which a process starts.
pub fn initial_phase() -> (phase: Phase)
    ensures
        phase == Phase::AwaitingLease,
{
    Phase::AwaitingLease
}

/// Takes an event and says where the process stands then and what it does
/// next, see [`transition`].
pub fn supervise(phase: Phase, event: Event) -> (next: (Phase, Directive))
    ensures
        next == transition(phase, event),
{
    match phase {
        Phase::Exited { .. } => (phase, Directive::Nothing),
        Phase::AwaitingLease => match event {
            Event::Interrupted => (
                Phase::Exited { reason: StopReason::Interrupted },
                Directive::Exit { reason: StopReason::Interrupted },
            ),
            Event::LeasePolled(LeasePoll::Acquired) => (
                Phase::LoggingIn,
                Directive::LogIn { poll_after_secs: LEASE_POLL_SECS },
            ),
            Event::LeasePolled(LeasePoll::NotAcquired) => (
                Phase::AwaitingLease,
                Directive::PollLease { after_secs: LEASE_POLL_SECS },
            ),
            Event::LeasePolled(LeasePoll::Failed) => (
                Phase::Exited { reason: StopReason::LeaseUnavailable },
                Directive::Exit { reason: StopReason::LeaseUnavailable },
            ),
            _ => (phase, Directive::Nothing),
        },
        _ => match event {
            Event::Interrupted => (
                Phase::Exited { reason: StopReason::Interrupted },
                Directive::Exit { reason: StopReason::Interrupted },
            ),
            Event::LeasePolled(LeasePoll::NotAcquired) => (
                Phase::Exited { reason: StopReason::LeadershipLost },
                Directive::Exit { reason: StopReason::LeadershipLost },
            ),
            Event::LeasePolled(_) => (phase, Directive::PollLease { after_secs: LEASE_POLL_SECS }),
            Event::LoginSucceeded => match phase {
                Phase::LoggingIn => (Phase::Serving, Directive::StartEngine),
                _ => (phase, Directive::Nothing),
            },
            Event::LoginFailed => match phase {
                Phase::LoggingIn => (
                    Phase::Exited { reason: StopReason::LoginFailed },
                    Directive::Exit { reason: StopReason::LoginFailed },
                ),
                _ => (phase, Directive::Nothing),
            },
        },
    }
}

/// The phase of a process that started and was told `events` in order.
pub open spec fn phase_after(events: Seq<Event>) -> Phase
    decreases events.len(),
{
    if events.len() == 0 {
        Phase::AwaitingLease
    } else {
        transition(phase_after(events.drop_last()), events.last()).0
    }
}

/// A poll that finds the lease in other hands never lets a process log in,
/// start its engine, or lead: a candidate stays a candidate, and a holder
/// stops for lost leadership, with an exit code other than zero.
pub proof fn lemma_lease_in_other_hands(phase: Phase)
    ensures
        ({
            let (next, directive) = transition(phase, Event::LeasePolled(LeasePoll::NotAcquired));
            &&& !leads(next)
            &&& !(directive is LogIn)
            &&& !(directive is StartEngine)
            &&& phase is AwaitingLease ==> next is AwaitingLease
            &&& leads(phase) ==> next == (Phase::Exited { reason: StopReason::LeadershipLost })
            &&& leads(phase) ==> directive == (Directive::Exit { reason: StopReason::LeadershipLost })
            &&& StopReason::LeadershipLost.code() != 0
        }),
{
}

/// The engine starts only in a process that holds the lease, and a process
/// comes to hold the lease only by a poll that acquired it.
pub proof fn lemma_engine_needs_lease(phase: Phase, event: Event)
    ensures
        transition(phase, event).1 is StartEngine ==> leads(phase) && leads(transition(phase, event).0),
        !leads(phase) && leads(transition(phase, event).0) ==> event == Event::LeasePolled(
            LeasePoll::Acquired,
        ),
{
}

/// A process that leads after a run of events acquired the lease in some
/// poll of the run, and no later poll found the lease in other hands.
pub proof fn lemma_leader_acquired_lease(events: Seq<Event>)
    requires
        leads(phase_after(events)),
    ensures
        exists|k: int|
            0 <= k < events.len() && #[trigger] events[k] == Event::LeasePolled(LeasePoll::Acquired)
                && forall|j: int|
                k < j < events.len() ==> #[trigger] events[j] != Event::LeasePolled(
                    LeasePoll::NotAcquired,
                ),
    decreases events.len(),
{
    if events.len() > 0 {
        let before = events.drop_last();
        let last = events.len() - 1;
        if leads(phase_after(before)) {
            lemma_leader_acquired_lease(before);
            let k = choose|k: int|
                0 <= k < before.len() && #[trigger] before[k] == Event::LeasePolled(
                    LeasePoll::Acquired,
                ) && forall|j: int|
                    k < j < before.len() ==> #[trigger] before[j] != Event::LeasePolled(
                        LeasePoll::NotAcquired,
                    );
            assert(events[k] == before[k]);
            assert forall|j: int| k < j < events.len() implies #[trigger] events[j]
                != Event::LeasePolled(LeasePoll::NotAcquired) by {
                if j < last {
                    assert(events[j] == before[j]);
                }
            }
        } else {
            assert(events[last] == Event::LeasePolled(LeasePoll::Acquired));
        }
    }
}

/// The lease outlives two missed renewals: a holder polls at least three
/// times within the time for which its lease is valid.
pub proof fn lemma_two_missed_renewals()
    ensures
        3 * LEASE_POLL_SECS <= LEASE_TTL_SECS,
{
}

} // verus!
