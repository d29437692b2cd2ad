use enclave_proc::dispatcher::{signal_reaction, Action, Dispatcher, Phase};
use enclave_proc::lifecycle::is_reparented;
use enclave_proc::protocol::{read_command, write_command, Command};

#[test]
fn dispatcher_starts_empty() {
    let d = Dispatcher::new();
    assert_eq!(d.phase, Phase::AwaitingCommand);
    assert!(!d.has_enclave());
    assert!(!d.terminate_ticket);
    assert_eq!(d.listener.endpoint_count(), 0);
    assert!(!d.listener.has_rendezvous());
}

#[test]
fn reparenting_poll_stops_only_at_init() {
    assert!(is_reparented(1));
    assert!(!is_reparented(0));
    assert!(!is_reparented(4242));
}

#[test]
fn run_records_enclave_and_opens_rendezvous() {
    // Client sends Run with valid arguments; the resource manager reports
    // success with identifier i-abc-enc777; the dispatcher records it,
    // derives logging identifier enc-777, and opens the rendezvous socket
    // path for i-abc-enc777.
    let mut d = Dispatcher::new();
    assert!(!d.has_enclave());
    assert_eq!(d.step(Command::Run), Action::RunEnclave);
    let (logger_id, path) = d.record_run_success(b"i-abc-enc777".to_vec());
    assert_eq!(logger_id, b"enc-777".to_vec());
    assert_eq!(path, b"i-abc-enc777.sock".to_vec());
    assert!(d.has_enclave());
    assert!(d.listener.has_rendezvous());
    assert_eq!(d.phase, Phase::AwaitingCommand);
}

#[test]
fn describe_served_while_termination_in_flight() {
    // Client sends Terminate: a worker starts. Independently a client sends
    // Describe: the dispatcher serves it without waiting on the worker. The
    // worker later sends TerminateComplete: the dispatcher joins it and
    // stops.
    let mut d = Dispatcher::new();
    assert_eq!(d.step(Command::Terminate), Action::SpawnTerminationWorker);
    assert_eq!(d.phase, Phase::AwaitingCommand);
    assert_eq!(d.step(Command::Describe), Action::ServeDescribe);
    assert_eq!(d.phase, Phase::AwaitingCommand);
    assert_eq!(d.step(Command::TerminateComplete), Action::JoinTerminationWorker);
    assert_eq!(d.phase, Phase::Stopped);
}

#[test]
fn terminate_ticket_joined_exactly_once() {
    // One Terminate then one TerminateComplete: exactly one join is issued
    // and no thread handle is left dangling.
    let mut d = Dispatcher::new();
    assert_eq!(d.step(Command::Terminate), Action::SpawnTerminationWorker);
    assert_eq!(d.step(Command::TerminateComplete), Action::JoinTerminationWorker);
    assert!(!d.terminate_ticket);
}

#[test]
fn completion_without_ticket_joins_nothing() {
    let mut d = Dispatcher::new();
    assert_eq!(d.step(Command::TerminateComplete), Action::IgnoreSpuriousCompletion);
    assert_eq!(d.phase, Phase::Stopped);
    assert!(!d.terminate_ticket);
}

#[test]
fn queries_leave_state_alone() {
    let mut d = Dispatcher::new();
    assert_eq!(d.step(Command::GetEnclaveCID), Action::ReplyEnclaveCid);
    assert_eq!(d.phase, Phase::AwaitingCommand);
    assert!(!d.has_enclave());
}

#[test]
fn signal_stops_dispatcher_without_client_termination() {
    // External signal arrives; the signal bridge injects
    // ConnectionListenerStop; the dispatcher stops without any client ever
    // issuing termination.
    let (cmd, stop_waiting) = signal_reaction(1);
    assert_eq!(cmd, Command::ConnectionListenerStop);
    assert!(stop_waiting);
    // The bridge sends the command over its pipe as a regular frame.
    let frame = write_command(cmd);
    let received = read_command(&frame).unwrap();
    let mut d = Dispatcher::new();
    assert_eq!(d.step(received), Action::StopListening);
    assert_eq!(d.phase, Phase::Stopped);
}
