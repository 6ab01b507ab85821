use vstd::prelude::*;

verus! {

/// The abstract lifecycle of a wrapper instance.
///
/// `Running` holds exactly while the slot stores a live session. `Stopped` is
/// the terminal state: once reached, no transition re-enters `Running`.
/// `Poisoned` records that a previous holder of the guard terminated
/// abnormally; every later acquisition surfaces a recoverable error instead.
pub enum LifeState {
    Running,
    Stopped,
    Poisoned,
}

/// The state after a `stop` call: a poisoned guard refuses the acquisition
/// and leaves everything as it was; otherwise the instance is stopped,
/// whether or not the shutdown call itself reported an error.
pub open spec fn stop_next(s: LifeState) -> LifeState {
    match s {
        LifeState::Poisoned => LifeState::Poisoned,
        _ => LifeState::Stopped,
    }
}

/// Whether a `stop` call from state `s` takes the session out of the slot
/// and hands it to the shutdown capability.
pub open spec fn stop_takes_session(s: LifeState) -> bool {
    s is Running
}

/// The state after an `is_alive` call whose liveness probe reported
/// `probe`: a live probe leaves a running instance running; a dead probe
/// forces the stopped state, whatever the reclaiming shutdown call returns.
/// The probe is only consulted while a session is held.
pub open spec fn alive_next(s: LifeState, probe: bool) -> LifeState {
    match s {
        LifeState::Poisoned => LifeState::Poisoned,
        LifeState::Stopped => LifeState::Stopped,
        LifeState::Running => if probe {
            LifeState::Running
        } else {
            LifeState::Stopped
        },
    }
}

/// Whether an `is_alive` call from state `s` with probe result `probe`
/// takes the session and performs the reclaiming shutdown.
pub open spec fn alive_takes_session(s: LifeState, probe: bool) -> bool {
    s is Running && !probe
}

/// The state after a forwarded command: commands never change the lifecycle.
pub open spec fn command_next(s: LifeState) -> LifeState {
    s
}

/// Whether a command issued from state `s` reaches the forwarded operation.
pub open spec fn command_forwards(s: LifeState) -> bool {
    s is Running
}

/// The stopped state is terminal: no transition leaves it, no later call
/// takes a session or reaches a forwarded operation.
pub proof fn lemma_stopped_is_terminal(probe: bool)
    ensures
        stop_next(LifeState::Stopped) == LifeState::Stopped,
        alive_next(LifeState::Stopped, probe) == LifeState::Stopped,
        command_next(LifeState::Stopped) == LifeState::Stopped,
        !stop_takes_session(LifeState::Stopped),
        !alive_takes_session(LifeState::Stopped, probe),
        !command_forwards(LifeState::Stopped),
{
}

/// `stop` is idempotent: a second call finds the state the first one
/// produced, performs no shutdown, and changes nothing.
pub proof fn lemma_stop_idempotent(s: LifeState)
    ensures
        stop_next(stop_next(s)) == stop_next(s),
        !stop_takes_session(stop_next(s)),
        !(s is Poisoned) ==> stop_next(s) is Stopped,
{
}

/// A dead liveness probe forces the stopped state through exactly the one
/// shutdown performed by that call: a later `is_alive` finds the instance
/// stopped and takes no session — like any later command, it is refused as
/// a stopped-instance call.
pub proof fn lemma_dead_probe_stops(probe: bool)
    ensures
        alive_next(LifeState::Running, false) == LifeState::Stopped,
        alive_takes_session(LifeState::Running, false),
        alive_next(alive_next(LifeState::Running, false), probe) == LifeState::Stopped,
        !alive_takes_session(alive_next(LifeState::Running, false), probe),
        !command_forwards(alive_next(LifeState::Running, false)),
{
}

/// No transition re-enters `Running`: a state found running was running
/// before, so the session stored at a successful start is the only one the
/// instance ever holds.
pub proof fn lemma_never_restarts(s: LifeState, probe: bool)
    ensures
        !(stop_next(s) is Running),
        alive_next(s, probe) is Running ==> s is Running,
        command_next(s) is Running ==> s is Running,
{
}

/// An abnormal termination of a guard holder is permanent: every transition
/// from the poisoned state stays poisoned, and none reaches a session or a
/// forwarded operation.
pub proof fn lemma_poison_is_permanent(probe: bool)
    ensures
        stop_next(LifeState::Poisoned) == LifeState::Poisoned,
        alive_next(LifeState::Poisoned, probe) == LifeState::Poisoned,
        command_next(LifeState::Poisoned) == LifeState::Poisoned,
        !stop_takes_session(LifeState::Poisoned),
        !alive_takes_session(LifeState::Poisoned, probe),
        !command_forwards(LifeState::Poisoned),
{
}

} // verus!
