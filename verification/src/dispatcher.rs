//! The event loop's state machine.
//!
//! The dispatcher owns the supervisor's bookkeeping: the recorded enclave
//! identifier, the listener registry, and the termination ticket. Each framed
//! command maps to one action for the surrounding shell to perform (launch,
//! spawn a termination worker, join it, reply, stop). The shell performs the
//! blocking work — the readiness wait, socket reads and writes, the worker
//! thread — and feeds every outcome back through these functions, so the
//! sequencing itself is verified.

use crate::ids::{get_logger_id, logger_id_spec};
use crate::listener::{socket_path_spec, ConnectionListener};
use crate::protocol::Command;
use vstd::prelude::*;

verus! {

/// The dispatcher's control state: serving commands, or terminal.
#[derive(Clone, Copy, PartialEq, Eq, Structural, Debug)]
pub enum Phase {
    /// Waiting for the next framed command from the multiplexer.
    AwaitingCommand,
    /// The loop has exited; the listener is to be torn down.
    Stopped,
}

/// What the shell must do for one dispatched command.
#[derive(Clone, Copy, PartialEq, Eq, Structural, Debug)]
pub enum Action {
    /// Read the run-arguments payload, launch the enclave under output
    /// routing, then record the outcome.
    RunEnclave,
    /// Create an endpoint pair, register one end, and spawn the termination
    /// worker holding the other end and a shared manager handle.
    SpawnTerminationWorker,
    /// Join the outstanding termination worker; it is near completion.
    JoinTerminationWorker,
    /// A completion notice arrived with no worker outstanding: log it and
    /// join nothing.
    IgnoreSpuriousCompletion,
    /// Query the enclave's console CID and frame it back to the client.
    ReplyEnclaveCid,
    /// Write the confirmation value, then describe the enclave under output
    /// routing.
    ServeDescribe,
    /// Exit the loop and tear the listener down.
    StopListening,
}

/// The action each command maps to, given whether a termination ticket is
/// outstanding.
pub open spec fn action_spec(cmd: Command, ticket: bool) -> Action {
    match cmd {
        Command::Run => Action::RunEnclave,
        Command::Terminate => Action::SpawnTerminationWorker,
        Command::TerminateComplete => if ticket {
            Action::JoinTerminationWorker
        } else {
            Action::IgnoreSpuriousCompletion
        },
        Command::GetEnclaveCID => Action::ReplyEnclaveCid,
        Command::Describe => Action::ServeDescribe,
        Command::ConnectionListenerStop => Action::StopListening,
    }
}

/// The control state after dispatching a command: only a completion notice
/// or a stop request ends the loop.
pub open spec fn phase_after(cmd: Command) -> Phase {
    match cmd {
        Command::TerminateComplete => Phase::Stopped,
        Command::ConnectionListenerStop => Phase::Stopped,
        _ => Phase::AwaitingCommand,
    }
}

/// The termination ticket after dispatching a command: `Terminate` issues
/// one, `TerminateComplete` consumes it, nothing else touches it.
pub open spec fn ticket_after(cmd: Command, ticket: bool) -> bool {
    match cmd {
        Command::Terminate => true,
        Command::TerminateComplete => false,
        _ => ticket,
    }
}

/// The supervisor's dispatcher.
pub struct Dispatcher {
    /// Control state of the event loop.
    pub phase: Phase,
    /// The enclave identifier, recorded only after a successful launch;
    /// before that the manager handle is empty and operations that need an
    /// enclave must fail explicitly.
    pub enclave_id: Option<Vec<u8>>,
    /// Whether a termination worker is outstanding: issued by `Terminate`,
    /// consumed — the worker joined exactly once — by `TerminateComplete`.
    pub terminate_ticket: bool,
    /// The multiplexer's registry of endpoints and rendezvous path.
    pub listener: ConnectionListener,
}

impl Dispatcher {
    /// The recorded enclave identifier's bytes, if any.
    pub open spec fn enclave_id_view(&self) -> Option<Seq<u8>> {
        match self.enclave_id {
            Some(v) => Some(v@),
            None => None,
        }
    }

    /// A dispatcher before any command: serving, empty manager handle, no
    /// ticket, empty listener.
    pub fn new() -> (r: Self)
        ensures
            r.phase == Phase::AwaitingCommand,
            r.enclave_id_view() is None,
            !r.terminate_ticket,
            r.listener.endpoints() == Seq::<i32>::empty(),
            r.listener.rendezvous_path() is None,
    {
        Dispatcher {
            phase: Phase::AwaitingCommand,
            enclave_id: None,
            terminate_ticket: false,
            listener: ConnectionListener::new(),
        }
    }

    /// Dispatch one framed command: update the control state and the ticket,
    /// and name the action the shell must perform. Commands are processed
    /// strictly in the order the multiplexer reports them; the dispatcher
    /// never blocks here, so a `Describe` is served even while a termination
    /// worker runs.
    pub fn step(&mut self, cmd: Command) -> (a: Action)
        requires
            old(self).phase == Phase::AwaitingCommand,
        ensures
            step_rel(*old(self), cmd, *final(self), a),
            *final(self) == step_pure(*old(self), cmd).0,
            a == step_pure(*old(self), cmd).1,
    {
        match cmd {
            Command::Run => Action::RunEnclave,
            Command::Terminate => {
                self.terminate_ticket = true;
                Action::SpawnTerminationWorker
            },
            Command::TerminateComplete => {
                self.phase = Phase::Stopped;
                if self.terminate_ticket {
                    self.terminate_ticket = false;
                    Action::JoinTerminationWorker
                } else {
                    Action::IgnoreSpuriousCompletion
                }
            },
            Command::GetEnclaveCID => Action::ReplyEnclaveCid,
            Command::Describe => Action::ServeDescribe,
            Command::ConnectionListenerStop => {
                self.phase = Phase::Stopped;
                Action::StopListening
            },
        }
    }

    /// Record a successful launch: keep the enclave identifier as the single
    /// source of truth for later queries, derive the logging identifier from
    /// it, and derive the rendezvous socket path under which further CLI
    /// invocations attach. Returns the logging identifier and the rendezvous
    /// path for the shell to apply.
    pub fn record_run_success(&mut self, enclave_id: Vec<u8>) -> (r: (Vec<u8>, Vec<u8>))
        ensures
            final(self).enclave_id_view() == Some(enclave_id@),
            r.0@ == logger_id_spec(enclave_id@),
            r.1@ == socket_path_spec(enclave_id@),
            final(self).listener.rendezvous_path() == Some(socket_path_spec(enclave_id@)),
            final(self).listener.endpoints() == old(self).listener.endpoints(),
            final(self).phase == old(self).phase,
            final(self).terminate_ticket == old(self).terminate_ticket,
    {
        let logger_id = get_logger_id(&enclave_id);
        let path = self.listener.start(&enclave_id);
        self.enclave_id = Some(enclave_id);
        (logger_id, path)
    }

    /// Whether the manager handle holds a launched enclave. Before `Run`
    /// succeeds the handle is empty, and operations that need an enclave
    /// must fail explicitly rather than silently do nothing.
    pub fn has_enclave(&self) -> (r: bool)
        ensures
            r <==> self.enclave_id_view() is Some,
    {
        self.enclave_id.is_some()
    }
}

/// How one `step` call relates the dispatcher's state before and after: the
/// action follows from the command and the outstanding ticket, the phase and
/// ticket move as `phase_after` and `ticket_after` say, and everything else
/// is untouched.
pub open spec fn step_rel(pre: Dispatcher, cmd: Command, post: Dispatcher, a: Action) -> bool {
    &&& a == action_spec(cmd, pre.terminate_ticket)
    &&& post.phase == phase_after(cmd)
    &&& post.terminate_ticket == ticket_after(cmd, pre.terminate_ticket)
    &&& post.enclave_id_view() == pre.enclave_id_view()
    &&& post.listener.endpoints() == pre.listener.endpoints()
    &&& post.listener.rendezvous_path() == pre.listener.rendezvous_path()
}

/// One dispatch step as a pure transformation of the dispatcher: the same
/// relation `step` ensures, as a function.
pub open spec fn step_pure(d: Dispatcher, cmd: Command) -> (Dispatcher, Action) {
    (
        Dispatcher {
            phase: phase_after(cmd),
            terminate_ticket: ticket_after(cmd, d.terminate_ticket),
            ..d
        },
        action_spec(cmd, d.terminate_ticket),
    )
}

/// The dispatcher run over a whole command sequence, collecting the actions
/// it issues; dispatching ends as soon as the terminal phase is reached.
pub open spec fn run_steps(d: Dispatcher, cmds: Seq<Command>) -> (Dispatcher, Seq<Action>)
    decreases cmds.len(),
{
    if cmds.len() == 0 || d.phase != Phase::AwaitingCommand {
        (d, Seq::empty())
    } else {
        let (d1, a) = step_pure(d, cmds[0]);
        let (dend, rest) = run_steps(d1, cmds.drop_first());
        (dend, seq![a] + rest)
    }
}

/// How many join actions a run issues.
pub open spec fn count_joins(actions: Seq<Action>) -> nat
    decreases actions.len(),
{
    if actions.len() == 0 {
        0
    } else {
        (if actions[0] == Action::JoinTerminationWorker {
            1nat
        } else {
            0nat
        }) + count_joins(actions.drop_first())
    }
}

/// How many `Terminate` commands a sequence holds.
pub open spec fn count_terminates(cmds: Seq<Command>) -> nat
    decreases cmds.len(),
{
    if cmds.len() == 0 {
        0
    } else {
        (if cmds[0] == Command::Terminate {
            1nat
        } else {
            0nat
        }) + count_terminates(cmds.drop_first())
    }
}

/// Law: over any command sequence whatsoever, the dispatcher never joins
/// more termination workers than `Terminate` commands were dispatched (plus
/// the one ticket possibly already outstanding at the start): no worker is
/// ever joined twice and no join is invented.
pub proof fn lemma_joins_bounded(d: Dispatcher, cmds: Seq<Command>)
    ensures
        count_joins(run_steps(d, cmds).1) <= count_terminates(cmds) + (
        if d.terminate_ticket {
            1nat
        } else {
            0nat
        }),
    decreases cmds.len(),
{
    if cmds.len() == 0 || d.phase != Phase::AwaitingCommand {
    } else {
        let c0 = cmds[0];
        let (d1, a0) = step_pure(d, c0);
        let (dend, rest) = run_steps(d1, cmds.drop_first());
        lemma_joins_bounded(d1, cmds.drop_first());
        assert((seq![a0] + rest).drop_first() =~= rest);
        assert(count_joins(seq![a0] + rest) == (if a0 == Action::JoinTerminationWorker {
            1nat
        } else {
            0nat
        }) + count_joins(rest));
    }
}

/// Law: at most one termination worker is joined per `Terminate` instance.
/// From a state with no ticket outstanding, dispatching `Terminate` spawns
/// one worker and issues the ticket; dispatching `TerminateComplete` then
/// joins exactly once and leaves no ticket behind, in the terminal phase.
/// A completion notice with no ticket outstanding joins nothing.
pub proof fn lemma_terminate_joined_once(
    d0: Dispatcher,
    d1: Dispatcher,
    d2: Dispatcher,
    a1: Action,
    a2: Action,
)
    requires
        !d0.terminate_ticket,
        step_rel(d0, Command::Terminate, d1, a1),
        step_rel(d1, Command::TerminateComplete, d2, a2),
    ensures
        a1 == Action::SpawnTerminationWorker,
        d1.terminate_ticket,
        d1.phase == Phase::AwaitingCommand,
        a2 == Action::JoinTerminationWorker,
        !d2.terminate_ticket,
        d2.phase == Phase::Stopped,
        forall|d3: Dispatcher, a3: Action|
            step_rel(d2, Command::TerminateComplete, d3, a3) ==> a3
                == Action::IgnoreSpuriousCompletion,
{
}

/// The synthetic command the signal bridge injects for any monitored signal,
/// and the request that the signal-wait loop stop afterwards. The bridge
/// writes the command on its pipe end, pre-registered with the listener, so
/// the main loop observes an external signal exactly like a client command.
pub fn signal_reaction(_signal: i32) -> (r: (Command, bool))
    ensures
        r.0 == Command::ConnectionListenerStop,
        r.1 == true,
{
    (Command::ConnectionListenerStop, true)
}

} // verus!
