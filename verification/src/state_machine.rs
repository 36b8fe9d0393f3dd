//! The state machine of one service: which status may follow which, what an
//! event does to a handler, and which events a status gives rise to.

use crate::clock::elapsed_millis;
use crate::formats::{
    contains_code, name_views, event_views, Event, EventView, FailureStrategy, RestartStrategy,
    Service, ServiceName, ServiceStatus, ServiceView,
};
use crate::service_handler::{HandlerView, ServiceHandler};
use vstd::prelude::*;

verus! {

/// Whether a request to move a service to `target` is honoured while the
/// service is in `from`. No request leads to `Starting`: only a launch does.
pub open spec fn transition_allowed(from: ServiceStatus, target: ServiceStatus) -> bool {
    match target {
        ServiceStatus::Initial => from == ServiceStatus::Success || from == ServiceStatus::Failed,
        ServiceStatus::Starting => false,
        ServiceStatus::Started => from == ServiceStatus::Starting,
        ServiceStatus::Running => from == ServiceStatus::Started,
        ServiceStatus::InKilling => from == ServiceStatus::Running || from
            == ServiceStatus::Started,
        ServiceStatus::Success => from == ServiceStatus::Starting || from
            == ServiceStatus::Running,
        ServiceStatus::Failed => from == ServiceStatus::Starting || from == ServiceStatus::Running,
        ServiceStatus::FinishedFailed => from == ServiceStatus::Failed || from
            == ServiceStatus::InKilling,
        ServiceStatus::Finished => from == ServiceStatus::Success || from
            == ServiceStatus::InKilling || from == ServiceStatus::Initial,
    }
}

pub fn is_transition_allowed(from: ServiceStatus, target: ServiceStatus) -> (allowed: bool)
    ensures
        allowed == transition_allowed(from, target),
{
    match target {
        ServiceStatus::Initial => from == ServiceStatus::Success || from == ServiceStatus::Failed,
        ServiceStatus::Starting => false,
        ServiceStatus::Started => from == ServiceStatus::Starting,
        ServiceStatus::Running => from == ServiceStatus::Started,
        ServiceStatus::InKilling => from == ServiceStatus::Running || from
            == ServiceStatus::Started,
        ServiceStatus::Success => from == ServiceStatus::Starting || from
            == ServiceStatus::Running,
        ServiceStatus::Failed => from == ServiceStatus::Starting || from == ServiceStatus::Running,
        ServiceStatus::FinishedFailed => from == ServiceStatus::Failed || from
            == ServiceStatus::InKilling,
        ServiceStatus::Finished => from == ServiceStatus::Success || from
            == ServiceStatus::InKilling || from == ServiceStatus::Initial,
    }
}

impl HandlerView {
    /// The handler after a request to move to `target`: moved if the
    /// transition is allowed, untouched if not. Reaching `Started` clears the
    /// count of failed starts.
    pub open spec fn after_status_change(self, target: ServiceStatus) -> HandlerView {
        if transition_allowed(self.status, target) {
            HandlerView {
                status: target,
                restart_attempts: if target == ServiceStatus::Started {
                    0
                } else {
                    self.restart_attempts
                },
                ..self
            }
        } else {
            self
        }
    }

    /// The handler after its process has exited with `exit_code`. A failure
    /// while the service was still `Started` or `Initial` counts as a failed
    /// start, and sends the service back to `Initial` while the budget lasts.
    pub open spec fn after_exit(self, exit_code: i32) -> HandlerView {
        let exited = HandlerView { pid: None, termination_started: false, ..self };
        if self.service.accepts_exit_code(exit_code) {
            HandlerView { status: ServiceStatus::Success, ..exited }
        } else if self.status == ServiceStatus::Started || self.status == ServiceStatus::Initial {
            let attempts = self.restart_attempts + 1;
            HandlerView {
                restart_attempts: attempts,
                status: if attempts > self.service.restart.attempts {
                    ServiceStatus::Failed
                } else {
                    ServiceStatus::Initial
                },
                ..exited
            }
        } else {
            HandlerView { status: ServiceStatus::Failed, ..exited }
        }
    }

    /// The handler once its launch has been requested.
    pub open spec fn launched(self) -> HandlerView {
        HandlerView { status: ServiceStatus::Starting, ..self }
    }

    /// Whether a request to terminate finds a process to be signalled.
    pub open spec fn is_killable(self) -> bool {
        self.status == ServiceStatus::Running || self.status == ServiceStatus::Started
            || self.status == ServiceStatus::Starting
    }

    /// The handler after a request to terminate: a service that was never
    /// launched is finished, one that is up starts shutting down.
    pub open spec fn after_kill(self) -> HandlerView {
        if self.status == ServiceStatus::Initial {
            HandlerView { status: ServiceStatus::Finished, ..self }
        } else if self.is_killable() {
            self.terminating()
        } else {
            self
        }
    }

    /// The handler once its process identifier is known. If termination was
    /// requested before, its time is taken afresh.
    pub open spec fn after_pid_change(self, pid: i32) -> HandlerView {
        HandlerView {
            pid: Some(pid),
            termination_started: self.termination_started || self.status
                == ServiceStatus::InKilling,
            ..self
        }
    }

    /// Whether a service that was asked to terminate `elapsed_millis` ago has
    /// used up its grace: its process is known, the request has been timed,
    /// and more time has passed than the declaration grants.
    pub open spec fn force_kill_due(self, elapsed_millis: nat) -> bool {
        self.pid.is_some() && self.termination_started && elapsed_millis
            > self.service.termination.wait_millis
    }
}

/// Handles a request to move the service of `service_handler` to
/// `new_status`. The request is honoured only if the transition is allowed;
/// the result tells whether it was. `service_name` is the name the request
/// was addressed to.
#[allow(unused_variables)]
pub fn handle_status_changed_event(
    service_name: ServiceName,
    new_status: ServiceStatus,
    service_handler: &mut ServiceHandler,
) -> (applied: bool)
    ensures
        applied == transition_allowed(old(service_handler)@.status, new_status),
        final(service_handler)@ == old(service_handler)@.after_status_change(new_status),
        final(service_handler).shutting_down_start == old(service_handler).shutting_down_start,
{
    if is_transition_allowed(service_handler.status, new_status) {
        service_handler.status = new_status;
        if new_status == ServiceStatus::Started {
            service_handler.restart_attempts = 0;
        }
        true
    } else {
        false
    }
}

/// Records that the process of the service has exited with `exit_code`.
pub fn handle_service_exited(service_handler: &mut ServiceHandler, exit_code: i32)
    requires
        old(service_handler)@.after_exit(exit_code).restart_attempts <= u32::MAX,
    ensures
        final(service_handler)@ == old(service_handler)@.after_exit(exit_code),
{
    service_handler.shutting_down_start = None;
    service_handler.pid = None;
    let has_failed = !contains_code(
        &service_handler.service.failure.successful_exit_code,
        exit_code,
    );
    if has_failed {
        if service_handler.status == ServiceStatus::Started || service_handler.status
            == ServiceStatus::Initial {
            service_handler.restart_attempts += 1;
            if service_handler.restart_attempts_are_over() {
                service_handler.status = ServiceStatus::Failed;
            } else {
                service_handler.status = ServiceStatus::Initial;
            }
        } else {
            service_handler.status = ServiceStatus::Failed;
        }
    } else {
        service_handler.status = ServiceStatus::Success;
    }
}

/// The status that the restart strategy of `service` asks for once its
/// process has exited.
pub open spec fn restart_status(service: ServiceView, is_failed: bool) -> ServiceStatus {
    match service.restart.strategy {
        RestartStrategy::Never => if is_failed {
            ServiceStatus::FinishedFailed
        } else {
            ServiceStatus::Finished
        },
        RestartStrategy::OnFailure => if is_failed {
            ServiceStatus::Initial
        } else {
            ServiceStatus::Finished
        },
        RestartStrategy::Always => ServiceStatus::Initial,
    }
}

/// The event that the restart strategy of `service` gives rise to.
pub open spec fn restart_event(service: ServiceView, is_failed: bool) -> EventView {
    EventView::StatusChanged(service.name, restart_status(service, is_failed))
}

/// Produces the event that the restart strategy of the service asks for.
pub fn handle_restart_strategy(service: &Service, is_failed: bool) -> (event: Event)
    ensures
        event@ == restart_event(service@, is_failed),
{
    let status = match service.restart.strategy {
        RestartStrategy::Never => {
            if is_failed {
                ServiceStatus::FinishedFailed
            } else {
                ServiceStatus::Finished
            }
        },
        RestartStrategy::OnFailure => {
            if is_failed {
                ServiceStatus::Initial
            } else {
                ServiceStatus::Finished
            }
        },
        RestartStrategy::Always => ServiceStatus::Initial,
    };
    Event::new_status_changed(&service.name, status)
}

/// For each name in turn, the request to mark the service as being killed
/// followed by the request to kill it.
pub open spec fn kill_requests(names: Seq<Seq<char>>) -> Seq<EventView>
    decreases names.len(),
{
    if names.len() == 0 {
        Seq::empty()
    } else {
        kill_requests(names.drop_last()).push(
            EventView::StatusChanged(names.last(), ServiceStatus::InKilling),
        ).push(EventView::Kill(names.last()))
    }
}

/// What the failure of `service` means for the services that depend on it.
pub open spec fn failure_events(dependents: Seq<Seq<char>>, service: ServiceView) -> Seq<EventView> {
    match service.failure.strategy {
        FailureStrategy::Shutdown => seq![EventView::ShuttingDownInitiated],
        FailureStrategy::KillDependents => kill_requests(dependents),
        FailureStrategy::Ignore => Seq::empty(),
    }
}

/// Appends to `events` the requests to kill each of `names`.
pub fn push_kill_requests(events: &mut Vec<Event>, names: &Vec<ServiceName>)
    ensures
        event_views(final(events)@) == event_views(old(events)@) + kill_requests(name_views(names@)),
{
    let ghost start = event_views(events@);
    let ghost all = name_views(names@);
    let mut i: usize = 0;
    while i < names.len()
        invariant
            i <= names.len(),
            all == name_views(names@),
            event_views(events@) == start + kill_requests(all.take(i as int)),
        decreases names.len() - i,
    {
        let ghost before = events@;
        assert(all.take(i + 1).drop_last() =~= all.take(i as int));
        events.push(Event::new_status_changed(&names[i], ServiceStatus::InKilling));
        events.push(Event::Kill(names[i].clone()));
        assert(event_views(events@) =~= event_views(before).push(
            EventView::StatusChanged(names@[i as int]@, ServiceStatus::InKilling),
        ).push(EventView::Kill(names@[i as int]@)));
        i += 1;
    }
    assert(all.take(all.len() as int) =~= all);
}

/// Produces the events that the failure of `failed_sh` asks for, given the
/// names `deps` of the services that depend on it.
pub fn handle_failure_strategy(deps: Vec<ServiceName>, failed_sh: &Service) -> (events: Vec<Event>)
    ensures
        event_views(events@) == failure_events(name_views(deps@), failed_sh@),
{
    let mut events: Vec<Event> = Vec::new();
    match failed_sh.failure.strategy {
        FailureStrategy::Shutdown => {
            events.push(Event::ShuttingDownInitiated);
        },
        FailureStrategy::KillDependents => {
            push_kill_requests(&mut events, &deps);
        },
        FailureStrategy::Ignore => {},
    }
    events
}

/// Whether a service that was asked to terminate `elapsed_millis`
/// milliseconds ago is to be killed by force now.
pub fn force_kill_due(service_handler: &ServiceHandler, elapsed_millis: u128) -> (due: bool)
    ensures
        due == service_handler@.force_kill_due(elapsed_millis as nat),
{
    service_handler.pid.is_some() && service_handler.shutting_down_start.is_some()
        && elapsed_millis > service_handler.service.termination.wait_millis as u128
}

/// Checks on the clock whether the service has been given enough time to
/// terminate. Without a known process or a timed request it has not.
pub fn should_force_kill(service_handler: &ServiceHandler) -> (due: bool)
    ensures
        exists|elapsed_millis: nat| due == service_handler@.force_kill_due(elapsed_millis),
{
    if service_handler.pid.is_none() {
        assert(!service_handler@.force_kill_due(0));
        return false;
    }
    match &service_handler.shutting_down_start {
        Some(start) => {
            let elapsed = elapsed_millis(start);
            let due = force_kill_due(service_handler, elapsed);
            due
        },
        None => {
            assert(!service_handler@.force_kill_due(0));
            false
        },
    }
}

} // verus!
