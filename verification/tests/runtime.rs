use std::time::{Duration, Instant};
use supervisor::bus::{Bus, BusConnector, Dispatcher};
use supervisor::formats::{
    Event, ExitStatus, FailureStrategy, RestartStrategy, Service, ServiceStatus,
    TerminationSignal,
};
use supervisor::runtime::{LaunchRequest, Reaction, Runtime};
use supervisor::service_handler::ServiceHandler;
use supervisor::signal::{KillOutcome, SignalResult};
use supervisor::state_machine::force_kill_due;

/// A process identifier that no process can have.
const NO_PROCESS: i32 = i32::MAX;

fn runtime_of(services: Vec<Service>) -> (Runtime, Dispatcher<Event>, BusConnector<Event>) {
    let mut bus = Bus::new();
    let connector = bus.join_bus();
    let observer = bus.join_bus();
    let runtime = Runtime::new(connector, services);
    (runtime, bus.start(), observer)
}

fn depending_on(name: &str, dependencies: &[&str]) -> Service {
    let mut service = Service::from_name(name);
    service.dependencies = dependencies.iter().map(|d| d.to_string()).collect();
    service
}

fn handler<'a>(runtime: &'a Runtime, name: &str) -> &'a ServiceHandler {
    runtime.repo().get_sh(&name.to_string())
}

fn status_of(runtime: &Runtime, name: &str) -> ServiceStatus {
    handler(runtime, name).status
}

fn next_of(runtime: &Runtime, name: &str) -> Vec<Event> {
    runtime.next(handler(runtime, name))
}

fn status_changed(name: &str, status: ServiceStatus) -> Event {
    Event::StatusChanged(name.to_string(), status)
}

/// Brings a service that can be launched to `Running`, as a spawner and a
/// health check would.
fn bring_up(runtime: &mut Runtime, name: &str, pid: i32) {
    assert!(matches!(
        runtime.apply_event(Event::Run(name.to_string())),
        Reaction::Launch(_)
    ));
    runtime.apply_event(Event::PidChanged(name.to_string(), pid));
    runtime.apply_event(status_changed(name, ServiceStatus::Started));
    runtime.apply_event(status_changed(name, ServiceStatus::Running));
    assert_eq!(status_of(runtime, name), ServiceStatus::Running);
}

/// Hands every message that waits on the input of the bus to the subscribers.
fn pump(dispatcher: &mut Dispatcher<Event>, messages: usize) {
    for _ in 0..messages {
        let message = dispatcher.next_message().unwrap();
        dispatcher.dispatch(&message);
    }
}

#[test]
fn happy_path_single_service() {
    let mut service = Service::from_name("a");
    service.command = "/bin/true".to_string();
    service.restart.strategy = RestartStrategy::Never;
    service.failure.successful_exit_code = vec![0];
    let (mut runtime, _dispatcher, _observer) = runtime_of(vec![service.clone()]);
    assert!(!runtime.is_shutting_down());
    assert!(runtime.is_well_formed());
    assert_eq!(status_of(&runtime, "a"), ServiceStatus::Initial);
    assert_eq!(next_of(&runtime, "a"), vec![Event::Run("a".into())]);

    let reaction = runtime.apply_event(Event::Run("a".into()));
    assert_eq!(
        reaction,
        Reaction::Launch(LaunchRequest { service, backoff_millis: 0 })
    );
    assert_eq!(status_of(&runtime, "a"), ServiceStatus::Starting);
    assert!(next_of(&runtime, "a").is_empty());

    assert_eq!(
        runtime.apply_event(Event::PidChanged("a".into(), NO_PROCESS)),
        Reaction::Nothing
    );
    assert_eq!(handler(&runtime, "a").pid, Some(NO_PROCESS));
    runtime.apply_event(status_changed("a", ServiceStatus::Started));
    assert_eq!(status_of(&runtime, "a"), ServiceStatus::Started);
    assert!(next_of(&runtime, "a").is_empty());

    runtime.apply_event(Event::ServiceExited("a".into(), 0));
    assert_eq!(status_of(&runtime, "a"), ServiceStatus::Success);
    assert_eq!(handler(&runtime, "a").pid, None);
    assert!(!runtime.repo().all_have_finished());
    assert_eq!(
        next_of(&runtime, "a"),
        vec![status_changed("a", ServiceStatus::Finished)]
    );

    runtime.apply_event(status_changed("a", ServiceStatus::Finished));
    assert_eq!(status_of(&runtime, "a"), ServiceStatus::Finished);
    assert!(next_of(&runtime, "a").is_empty());
    assert!(runtime.repo().all_have_finished());
    assert!(!runtime.repo().any_finished_failed());

    let exit = runtime.finish();
    assert_eq!(exit.status, ExitStatus::Successful);
    assert_eq!(
        exit.announced,
        vec![
            Event::ShuttingDownInitiated,
            Event::Exited("Runtime".to_string(), true)
        ]
    );
    assert!(exit.published);
}

#[test]
fn dependency_ordering() {
    let mut a = Service::from_name("a");
    a.command = "sleep 10".to_string();
    let b = depending_on("b", &["a"]);
    let (mut runtime, _dispatcher, _observer) = runtime_of(vec![a, b]);
    assert_eq!(next_of(&runtime, "a"), vec![Event::Run("a".into())]);
    assert!(next_of(&runtime, "b").is_empty());

    runtime.apply_event(Event::Run("a".into()));
    assert_eq!(status_of(&runtime, "a"), ServiceStatus::Starting);
    assert_eq!(status_of(&runtime, "b"), ServiceStatus::Initial);
    assert!(next_of(&runtime, "b").is_empty());
    assert!(!runtime.repo().is_service_runnable(handler(&runtime, "b")));

    runtime.apply_event(status_changed("a", ServiceStatus::Started));
    assert!(runtime.repo().is_service_runnable(handler(&runtime, "b")));
    assert_eq!(next_of(&runtime, "b"), vec![Event::Run("b".into())]);

    runtime.apply_event(status_changed("a", ServiceStatus::Running));
    assert_eq!(status_of(&runtime, "b"), ServiceStatus::Initial);
    assert_eq!(next_of(&runtime, "b"), vec![Event::Run("b".into())]);
    assert_eq!(
        runtime.next_for_all(),
        vec![Event::Run("b".into())]
    );
}

#[test]
fn unknown_dependency_keeps_a_service_from_running() {
    let b = depending_on("b", &["missing"]);
    let (runtime, _dispatcher, _observer) = runtime_of(vec![b]);
    assert!(!runtime.repo().is_service_runnable(handler(&runtime, "b")));
    assert!(next_of(&runtime, "b").is_empty());
}

#[test]
fn service_without_dependencies_is_runnable_at_once() {
    let (runtime, _dispatcher, _observer) = runtime_of(vec![Service::from_name("a")]);
    assert!(runtime.repo().is_service_runnable(handler(&runtime, "a")));
    assert_eq!(next_of(&runtime, "a"), vec![Event::Run("a".into())]);
    assert_eq!(
        runtime.next_given(handler(&runtime, "a"), true),
        vec![Event::Run("a".into())]
    );
}

#[test]
fn restart_on_failure_attempts_exhausted() {
    let mut service = Service::from_name("a");
    service.restart.strategy = RestartStrategy::OnFailure;
    service.restart.attempts = 2;
    service.restart.backoff_millis = 250;
    service.failure.successful_exit_code = vec![0];
    let (mut runtime, _dispatcher, _observer) = runtime_of(vec![service]);
    let a = "a".to_string();

    // Three starts fail before the service is launched again.
    for attempt in 1..=3u32 {
        assert_eq!(status_of(&runtime, "a"), ServiceStatus::Initial);
        assert!(runtime.admits(&Event::ServiceExited(a.clone(), 1)));
        runtime.apply_event(Event::ServiceExited(a.clone(), 1));
        assert_eq!(handler(&runtime, "a").restart_attempts, attempt);
    }
    assert_eq!(status_of(&runtime, "a"), ServiceStatus::Failed);
    assert!(handler(&runtime, "a").restart_attempts_are_over());

    // The budget is spent: the restart strategy decides, and sends the
    // service back to be launched, after three times the backoff.
    assert_eq!(
        next_of(&runtime, "a"),
        vec![status_changed("a", ServiceStatus::Initial)]
    );
    runtime.apply_event(status_changed("a", ServiceStatus::Initial));
    assert_eq!(status_of(&runtime, "a"), ServiceStatus::Initial);
    match runtime.apply_event(Event::Run(a.clone())) {
        Reaction::Launch(request) => assert_eq!(request.backoff_millis, 750),
        other => panic!("no launch: {:?}", other),
    }

    // A start that is reported clears the count.
    runtime.apply_event(status_changed("a", ServiceStatus::Started));
    assert_eq!(handler(&runtime, "a").restart_attempts, 0);
}

#[test]
fn failure_within_the_budget_ends_in_finished_failed() {
    let mut service = Service::from_name("a");
    service.restart.strategy = RestartStrategy::OnFailure;
    service.restart.attempts = 2;
    let (mut runtime, _dispatcher, _observer) = runtime_of(vec![service]);
    runtime.apply_event(Event::Run("a".into()));
    runtime.apply_event(Event::ServiceExited("a".into(), 1));
    assert_eq!(status_of(&runtime, "a"), ServiceStatus::Failed);
    assert_eq!(handler(&runtime, "a").restart_attempts, 0);
    assert_eq!(
        next_of(&runtime, "a"),
        vec![status_changed("a", ServiceStatus::FinishedFailed)]
    );
    runtime.apply_event(status_changed("a", ServiceStatus::FinishedFailed));
    assert_eq!(status_of(&runtime, "a"), ServiceStatus::FinishedFailed);
    assert!(runtime.repo().all_have_finished());
    assert!(runtime.repo().any_finished_failed());
    assert_eq!(runtime.finish().status, ExitStatus::SomeServiceFailed);
}

#[test]
fn no_attempts_allowed_means_a_single_attempt() {
    let mut service = Service::from_name("a");
    service.restart.strategy = RestartStrategy::OnFailure;
    service.restart.attempts = 0;
    let (mut runtime, _dispatcher, _observer) = runtime_of(vec![service]);
    assert!(matches!(
        runtime.apply_event(Event::Run("a".into())),
        Reaction::Launch(_)
    ));
    runtime.apply_event(Event::ServiceExited("a".into(), 1));
    assert_eq!(status_of(&runtime, "a"), ServiceStatus::Failed);
    let events = next_of(&runtime, "a");
    assert_eq!(events, vec![status_changed("a", ServiceStatus::FinishedFailed)]);
    for event in events {
        runtime.apply_event(event);
    }
    assert_eq!(status_of(&runtime, "a"), ServiceStatus::FinishedFailed);
    assert!(next_of(&runtime, "a").is_empty());
    assert_eq!(
        runtime.apply_event(Event::Run("a".into())),
        Reaction::Nothing
    );
    assert_eq!(status_of(&runtime, "a"), ServiceStatus::FinishedFailed);
}

#[test]
fn kill_dependents_propagation() {
    let mut a = Service::from_name("a");
    a.failure.strategy = FailureStrategy::KillDependents;
    let b = depending_on("b", &["a"]);
    let c = depending_on("c", &["a"]);
    let (mut runtime, _dispatcher, _observer) = runtime_of(vec![a, b, c]);
    bring_up(&mut runtime, "a", NO_PROCESS);
    bring_up(&mut runtime, "b", NO_PROCESS - 1);
    bring_up(&mut runtime, "c", NO_PROCESS - 2);
    assert_eq!(
        runtime.repo().get_dependents("a".to_string()),
        vec!["b".to_string(), "c".to_string()]
    );

    runtime.apply_event(Event::ServiceExited("a".into(), 1));
    assert_eq!(status_of(&runtime, "a"), ServiceStatus::Failed);
    let events = next_of(&runtime, "a");
    assert_eq!(
        events,
        vec![
            status_changed("b", ServiceStatus::InKilling),
            Event::Kill("b".into()),
            status_changed("c", ServiceStatus::InKilling),
            Event::Kill("c".into()),
            status_changed("a", ServiceStatus::FinishedFailed),
        ]
    );
    for event in events {
        runtime.apply_event(event);
    }
    assert_eq!(status_of(&runtime, "a"), ServiceStatus::FinishedFailed);
    assert_eq!(status_of(&runtime, "b"), ServiceStatus::InKilling);
    assert_eq!(status_of(&runtime, "c"), ServiceStatus::InKilling);

    runtime.apply_event(Event::ServiceExited("b".into(), 0));
    runtime.apply_event(Event::ServiceExited("c".into(), 143));
    assert_eq!(
        next_of(&runtime, "b"),
        vec![status_changed("b", ServiceStatus::Finished)]
    );
    assert_eq!(
        next_of(&runtime, "c"),
        vec![status_changed("c", ServiceStatus::FinishedFailed)]
    );
    runtime.apply_event(status_changed("b", ServiceStatus::Finished));
    runtime.apply_event(status_changed("c", ServiceStatus::FinishedFailed));
    assert!(runtime.repo().all_have_finished());
    assert_eq!(runtime.finish().status, ExitStatus::SomeServiceFailed);
}

#[test]
fn failure_with_shutdown_strategy_and_die_if_failed_peers() {
    let mut a = Service::from_name("a");
    a.failure.strategy = FailureStrategy::Shutdown;
    let mut b = Service::from_name("b");
    b.termination.die_if_failed = vec!["a".to_string()];
    let c = Service::from_name("c");
    let (mut runtime, _dispatcher, _observer) = runtime_of(vec![a, b, c]);
    assert_eq!(
        runtime.repo().get_die_if_failed(&"a".to_string()),
        vec!["b".to_string()]
    );
    bring_up(&mut runtime, "a", NO_PROCESS);
    runtime.apply_event(Event::ServiceExited("a".into(), 1));
    assert_eq!(
        next_of(&runtime, "a"),
        vec![
            Event::ShuttingDownInitiated,
            status_changed("a", ServiceStatus::FinishedFailed),
            status_changed("b", ServiceStatus::InKilling),
            Event::Kill("b".into()),
        ]
    );
}

#[test]
fn force_kill_on_timeout() {
    let mut service = Service::from_name("a");
    service.termination.wait_millis = 1000;
    service.termination.signal = TerminationSignal::TERM;
    let (mut runtime, _dispatcher, _observer) = runtime_of(vec![service]);
    bring_up(&mut runtime, "a", NO_PROCESS);

    match runtime.apply_event(Event::Kill("a".into())) {
        Reaction::Kill(KillOutcome::Sent { pid, signal, result }) => {
            assert_eq!(pid, NO_PROCESS);
            assert_eq!(signal, TerminationSignal::TERM);
            assert_eq!(result, SignalResult::NoSuchProcess);
        }
        other => panic!("no signal: {:?}", other),
    }
    assert_eq!(status_of(&runtime, "a"), ServiceStatus::InKilling);
    assert!(handler(&runtime, "a").shutting_down_start.is_some());

    // Within the grace nothing happens, after it the service is killed.
    let sh = handler(&runtime, "a");
    assert!(!force_kill_due(sh, 1000));
    assert!(runtime.next_given(sh, false).is_empty());
    assert!(next_of(&runtime, "a").is_empty());
    assert!(force_kill_due(sh, 1001));
    let events = runtime.next_given(sh, true);
    assert_eq!(
        events,
        vec![
            Event::ForceKill("a".into()),
            status_changed("a", ServiceStatus::FinishedFailed),
        ]
    );

    match runtime.apply_event(Event::ForceKill("a".into())) {
        Reaction::Kill(KillOutcome::Sent { pid, signal, .. }) => {
            assert_eq!(pid, NO_PROCESS);
            assert_eq!(signal, TerminationSignal::KILL);
        }
        other => panic!("no signal: {:?}", other),
    }
    runtime.apply_event(status_changed("a", ServiceStatus::FinishedFailed));
    assert_eq!(status_of(&runtime, "a"), ServiceStatus::FinishedFailed);

    runtime.apply_event(Event::ServiceExited("a".into(), 137));
    assert_eq!(status_of(&runtime, "a"), ServiceStatus::Failed);
    assert!(handler(&runtime, "a").shutting_down_start.is_none());
    assert_eq!(
        next_of(&runtime, "a"),
        vec![status_changed("a", ServiceStatus::FinishedFailed)]
    );
    runtime.apply_event(status_changed("a", ServiceStatus::FinishedFailed));
    assert_eq!(runtime.finish().status, ExitStatus::SomeServiceFailed);
}

#[test]
fn next_reads_the_clock_for_a_service_being_killed() {
    let mut service = Service::from_name("a");
    service.termination.wait_millis = 0;
    let (runtime, _dispatcher, _observer) = runtime_of(vec![Service::from_name("other")]);
    let mut sh = ServiceHandler::new(service);
    sh.pid = Some(NO_PROCESS);
    sh.shutting_down_started();
    sh.shutting_down_start = Some(Instant::now().checked_sub(Duration::from_secs(5)).unwrap());
    assert_eq!(
        runtime.next(&sh),
        vec![
            Event::ForceKill("a".into()),
            status_changed("a", ServiceStatus::FinishedFailed),
        ]
    );
    sh.pid = None;
    assert!(runtime.next(&sh).is_empty());
}

#[test]
fn force_kill_is_ignored_unless_the_service_is_being_killed() {
    let (mut runtime, _dispatcher, _observer) = runtime_of(vec![Service::from_name("a")]);
    bring_up(&mut runtime, "a", NO_PROCESS);
    assert_eq!(
        runtime.apply_event(Event::ForceKill("a".into())),
        Reaction::Nothing
    );
    assert_eq!(status_of(&runtime, "a"), ServiceStatus::Running);
}

#[test]
fn kill_before_the_pid_is_known_signals_when_it_arrives() {
    let (mut runtime, _dispatcher, _observer) = runtime_of(vec![Service::from_name("a")]);
    runtime.apply_event(Event::Run("a".into()));
    assert_eq!(
        runtime.apply_event(Event::Kill("a".into())),
        Reaction::Kill(KillOutcome::MissingPid)
    );
    assert_eq!(status_of(&runtime, "a"), ServiceStatus::InKilling);
    assert!(!force_kill_due(handler(&runtime, "a"), 1_000_000));
    match runtime.apply_event(Event::PidChanged("a".into(), NO_PROCESS)) {
        Reaction::Kill(KillOutcome::Sent { pid, signal, .. }) => {
            assert_eq!(pid, NO_PROCESS);
            assert_eq!(signal, TerminationSignal::TERM);
        }
        other => panic!("no signal: {:?}", other),
    }
    assert_eq!(handler(&runtime, "a").pid, Some(NO_PROCESS));
    assert!(handler(&runtime, "a").shutting_down_start.is_some());
    assert!(force_kill_due(handler(&runtime, "a"), 1_000_000));
}

#[test]
fn kill_on_initial_service_finishes_it_however_often() {
    let (mut runtime, _dispatcher, _observer) = runtime_of(vec![Service::from_name("a")]);
    for _ in 0..3 {
        assert_eq!(
            runtime.apply_event(Event::Kill("a".into())),
            Reaction::Nothing
        );
        assert_eq!(status_of(&runtime, "a"), ServiceStatus::Finished);
        assert!(handler(&runtime, "a").shutting_down_start.is_none());
    }
}

#[test]
fn shutdown_twice_is_shutdown_once() {
    let (mut runtime, _dispatcher, _observer) =
        runtime_of(vec![Service::from_name("a"), Service::from_name("b")]);
    bring_up(&mut runtime, "a", NO_PROCESS);
    assert_eq!(
        runtime.apply_event(Event::ShuttingDownInitiated),
        Reaction::Nothing
    );
    assert!(runtime.is_shutting_down());
    let once = runtime.next_for_all();
    assert_eq!(
        runtime.apply_event(Event::ShuttingDownInitiated),
        Reaction::Nothing
    );
    assert!(runtime.is_shutting_down());
    assert_eq!(runtime.next_for_all(), once);
    assert_eq!(
        once,
        vec![
            Event::Kill("a".into()),
            status_changed("b", ServiceStatus::Finished),
        ]
    );
    assert_eq!(status_of(&runtime, "a"), ServiceStatus::Running);
    assert_eq!(status_of(&runtime, "b"), ServiceStatus::Initial);
    assert_eq!(
        runtime.finish().announced,
        vec![Event::Exited("Runtime".to_string(), true)]
    );
}

#[test]
fn shutdown_ends_a_running_service_within_its_grace() {
    let mut service = Service::from_name("a");
    service.termination.wait_millis = 1000;
    service.termination.signal = TerminationSignal::HUP;
    let (mut runtime, _dispatcher, _observer) = runtime_of(vec![service]);
    bring_up(&mut runtime, "a", NO_PROCESS);
    runtime.apply_event(Event::ShuttingDownInitiated);

    let first = runtime.next_for_all();
    assert_eq!(first, vec![Event::Kill("a".into())]);
    let reactions = runtime.apply_events(&first);
    assert_eq!(
        reactions,
        vec![Some(Reaction::Kill(KillOutcome::Sent {
            pid: NO_PROCESS,
            signal: TerminationSignal::HUP,
            result: SignalResult::NoSuchProcess,
        }))]
    );
    assert_eq!(status_of(&runtime, "a"), ServiceStatus::InKilling);
    assert!(runtime.next_for_all().is_empty());

    let sh = handler(&runtime, "a");
    let second = runtime.next_given(sh, force_kill_due(sh, 1001));
    runtime.apply_events(&second);
    assert_eq!(status_of(&runtime, "a"), ServiceStatus::FinishedFailed);
    assert!(runtime.repo().all_have_finished());
    assert!(runtime.next_for_all().is_empty());
}

#[test]
fn never_restarted_service_ends_after_its_exit() {
    for (exit_code, status, end) in [
        (0, ServiceStatus::Success, ServiceStatus::Finished),
        (1, ServiceStatus::Failed, ServiceStatus::FinishedFailed),
    ] {
        let mut service = Service::from_name("a");
        service.restart.strategy = RestartStrategy::Never;
        service.restart.attempts = 0;
        let (mut runtime, _dispatcher, _observer) = runtime_of(vec![service]);
        bring_up(&mut runtime, "a", NO_PROCESS);
        runtime.apply_event(Event::ServiceExited("a".into(), exit_code));
        assert_eq!(status_of(&runtime, "a"), status);
        let events = next_of(&runtime, "a");
        assert_eq!(events, vec![status_changed("a", end)]);
        runtime.apply_events(&events);
        assert_eq!(status_of(&runtime, "a"), end);
        assert!(next_of(&runtime, "a").is_empty());
    }
}

#[test]
fn always_restarted_service_goes_back_to_initial() {
    let mut service = Service::from_name("a");
    service.restart.strategy = RestartStrategy::Always;
    let (mut runtime, _dispatcher, _observer) = runtime_of(vec![service]);
    bring_up(&mut runtime, "a", NO_PROCESS);
    runtime.apply_event(Event::ServiceExited("a".into(), 0));
    let events = next_of(&runtime, "a");
    assert_eq!(events, vec![status_changed("a", ServiceStatus::Initial)]);
    runtime.apply_events(&events);
    assert_eq!(status_of(&runtime, "a"), ServiceStatus::Initial);
    assert_eq!(next_of(&runtime, "a"), vec![Event::Run("a".into())]);
}

#[test]
fn nothing_is_launched_while_shutting_down() {
    let (mut runtime, _dispatcher, _observer) = runtime_of(vec![Service::from_name("a")]);
    runtime.apply_event(Event::ShuttingDownInitiated);
    assert_eq!(
        runtime.apply_event(Event::Run("a".into())),
        Reaction::Nothing
    );
    assert_eq!(status_of(&runtime, "a"), ServiceStatus::Initial);
    assert_eq!(
        next_of(&runtime, "a"),
        vec![status_changed("a", ServiceStatus::Finished)]
    );
}

#[test]
fn terminal_status_survives_every_event_but_an_exit() {
    let (mut runtime, _dispatcher, _observer) = runtime_of(vec![Service::from_name("a")]);
    runtime.apply_event(Event::Kill("a".into()));
    assert_eq!(status_of(&runtime, "a"), ServiceStatus::Finished);
    let events = vec![
        Event::Run("a".into()),
        Event::Kill("a".into()),
        Event::ForceKill("a".into()),
        Event::PidChanged("a".into(), NO_PROCESS),
        Event::ShuttingDownInitiated,
        Event::Exited("a".into(), false),
        status_changed("a", ServiceStatus::Initial),
        status_changed("a", ServiceStatus::Started),
        status_changed("a", ServiceStatus::Running),
        status_changed("a", ServiceStatus::InKilling),
        status_changed("a", ServiceStatus::Success),
        status_changed("a", ServiceStatus::Failed),
        status_changed("a", ServiceStatus::FinishedFailed),
    ];
    for event in events {
        runtime.apply_event(event);
        assert_eq!(status_of(&runtime, "a"), ServiceStatus::Finished);
    }
    runtime.apply_event(Event::ServiceExited("a".into(), 1));
    assert_eq!(status_of(&runtime, "a"), ServiceStatus::Failed);
}

#[test]
fn event_for_an_unknown_service_is_not_applied() {
    let (mut runtime, _dispatcher, _observer) = runtime_of(vec![Service::from_name("a")]);
    assert!(!runtime.admits(&Event::Run("ghost".into())));
    assert!(runtime.admits(&Event::Run("a".into())));
    assert!(runtime.admits(&Event::Exited("ghost".into(), true)));
    assert!(runtime.admits(&Event::ShuttingDownInitiated));
    assert_eq!(runtime.try_apply_event(Event::Kill("ghost".into())), None);
    assert_eq!(
        runtime.try_apply_event(Event::ServiceExited("ghost".into(), 0)),
        None
    );
    assert_eq!(status_of(&runtime, "a"), ServiceStatus::Initial);
    assert_eq!(
        runtime.try_apply_event(Event::Kill("a".into())),
        Some(Reaction::Nothing)
    );
    assert_eq!(status_of(&runtime, "a"), ServiceStatus::Finished);
}

#[test]
fn publishing_nothing_succeeds_even_without_a_bus() {
    let (mut runtime, dispatcher, observer) = runtime_of(vec![Service::from_name("a")]);
    assert!(runtime.publish(&vec![Event::Run("a".into())]));
    drop(dispatcher);
    assert!(runtime.publish(&vec![]));
    assert!(!runtime.publish(&vec![Event::Run("a".into())]));
    assert_eq!(status_of(&runtime, "a"), ServiceStatus::Initial);
    assert!(observer.try_get_events().is_empty());
}

#[test]
fn events_are_applied_in_order() {
    let (mut runtime, _dispatcher, _observer) = runtime_of(vec![Service::from_name("a")]);
    let events = vec![
        status_changed("a", ServiceStatus::Started),
        Event::Run("a".into()),
        Event::Run("ghost".into()),
        status_changed("a", ServiceStatus::Started),
        status_changed("a", ServiceStatus::Running),
    ];
    let reactions = runtime.apply_events(&events);
    assert_eq!(reactions.len(), 5);
    assert_eq!(reactions[0], Some(Reaction::Nothing));
    assert!(matches!(reactions[1], Some(Reaction::Launch(_))));
    assert_eq!(reactions[2], None);
    assert_eq!(reactions[3], Some(Reaction::Nothing));
    assert_eq!(reactions[4], Some(Reaction::Nothing));
    assert_eq!(status_of(&runtime, "a"), ServiceStatus::Running);
}

#[test]
fn tick_by_tick_through_the_bus() {
    let mut service = Service::from_name("a");
    service.command = "/bin/true".to_string();
    let (mut runtime, mut dispatcher, observer) = runtime_of(vec![service]);
    let spawner = runtime.repo().connector();

    // Nothing has arrived yet: the service is asked to run.
    let first = runtime.tick(0, false);
    assert!(first.inbound.is_empty());
    assert!(first.reactions.is_empty());
    assert!(!first.shutdown_requested);
    assert!(first.published);
    assert_eq!(first.outbound, vec![Event::Run("a".into())]);
    pump(&mut dispatcher, first.outbound.len());

    // The request comes back and is followed.
    let second = runtime.tick(first.outbound.len(), false);
    assert_eq!(second.inbound, vec![Event::Run("a".into())]);
    assert!(matches!(second.reactions[0], Some(Reaction::Launch(_))));
    assert!(second.outbound.is_empty());
    assert_eq!(status_of(&runtime, "a"), ServiceStatus::Starting);

    // The spawner reports the start and the exit of the process.
    assert!(spawner.send_event(Event::PidChanged("a".into(), NO_PROCESS)));
    assert!(spawner.send_event(status_changed("a", ServiceStatus::Started)));
    assert!(spawner.send_event(Event::ServiceExited("a".into(), 0)));
    pump(&mut dispatcher, 3);
    let third = runtime.tick(0, false);
    assert_eq!(third.inbound.len(), 3);
    assert_eq!(status_of(&runtime, "a"), ServiceStatus::Success);
    assert_eq!(
        third.outbound,
        vec![status_changed("a", ServiceStatus::Finished)]
    );
    pump(&mut dispatcher, 1);

    let fourth = runtime.tick(third.outbound.len(), true);
    assert!(fourth.shutdown_requested);
    assert_eq!(
        fourth.inbound,
        vec![status_changed("a", ServiceStatus::Finished)]
    );
    assert!(fourth.outbound.is_empty());
    assert!(runtime.repo().all_have_finished());
    assert!(!runtime.is_shutting_down());
    pump(&mut dispatcher, 1);

    // The shutdown comes back; it had not begun when this round looked, so
    // it is published once more, which changes nothing.
    let fifth = runtime.tick(0, true);
    assert_eq!(fifth.inbound, vec![Event::ShuttingDownInitiated]);
    assert!(fifth.shutdown_requested);
    assert!(runtime.is_shutting_down());
    pump(&mut dispatcher, 1);

    let sixth = runtime.tick(0, true);
    assert_eq!(sixth.inbound, vec![Event::ShuttingDownInitiated]);
    assert_eq!(sixth.reactions, vec![Some(Reaction::Nothing)]);
    assert!(!sixth.shutdown_requested);
    assert!(sixth.outbound.is_empty());
    assert!(runtime.is_shutting_down());

    let exit = runtime.finish();
    assert_eq!(exit.status, ExitStatus::Successful);
    assert_eq!(
        exit.announced,
        vec![Event::Exited("Runtime".to_string(), true)]
    );

    // The observer has seen everything that went over the bus, in order.
    pump(&mut dispatcher, 1);
    assert_eq!(
        observer.try_get_events(),
        vec![
            Event::Run("a".into()),
            Event::PidChanged("a".into(), NO_PROCESS),
            status_changed("a", ServiceStatus::Started),
            Event::ServiceExited("a".into(), 0),
            status_changed("a", ServiceStatus::Finished),
            Event::ShuttingDownInitiated,
            Event::ShuttingDownInitiated,
            Event::Exited("Runtime".to_string(), true),
        ]
    );
}
