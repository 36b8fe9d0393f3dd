//! What holds of the scheduler whatever events arrive, and in whatever order.

use crate::formats::{
    EventView, RestartStrategy, ServiceStatus, ServiceView, TerminationSignal,
};
use crate::runtime::{ReactionView, RuntimeView};
use crate::service_handler::HandlerView;
use crate::state_machine::{failure_events, kill_requests, transition_allowed};
use vstd::prelude::*;

verus! {

/// What `ev` does to the handler of the service it is addressed to, in a
/// scheduler that is shutting down or not.
pub open spec fn handler_after(handler: HandlerView, ev: EventView, is_shutting_down: bool) -> HandlerView {
    match ev {
        EventView::StatusChanged(_, target) => handler.after_status_change(target),
        EventView::ServiceExited(_, exit_code) => handler.after_exit(exit_code),
        EventView::Run(_) => if handler.status == ServiceStatus::Initial && !is_shutting_down {
            handler.launched()
        } else {
            handler
        },
        EventView::Kill(_) => handler.after_kill(),
        EventView::PidChanged(_, pid) => handler.after_pid_change(pid),
        _ => handler,
    }
}

/// The steps that the status of a service can take: a request that the
/// transition table honours; a launch; the exit of the process, which makes
/// the service succeed or fail wherever it stood, or sends a service whose
/// start failed back to `Initial`; and a request to terminate, which lets a
/// service that is up or coming up start shutting down.
pub open spec fn status_step(from: ServiceStatus, to: ServiceStatus) -> bool {
    ||| transition_allowed(from, to)
    ||| from == ServiceStatus::Initial && to == ServiceStatus::Starting
    ||| to == ServiceStatus::Success
    ||| to == ServiceStatus::Failed
    ||| from == ServiceStatus::Started && to == ServiceStatus::Initial
    ||| (from == ServiceStatus::Running || from == ServiceStatus::Started || from
        == ServiceStatus::Starting) && to == ServiceStatus::InKilling
}

/// Whether the record of failed starts is sound: it is within one of what the
/// declaration allows, and a service that is `Started` has none on record.
pub open spec fn attempts_bounded(handler: HandlerView) -> bool {
    handler.restart_attempts <= handler.service.restart.attempts + 1 && (handler.status
        == ServiceStatus::Started ==> handler.restart_attempts == 0)
}

/// Whether the time of a request to terminate is on record only if the
/// service is being killed, or has ended since.
pub open spec fn termination_timed_while_killing(handler: HandlerView) -> bool {
    handler.termination_started ==> handler.status == ServiceStatus::InKilling
        || handler.status.terminal()
}

/// Whether `ev` reports a failed exit of `handler` at a moment when the
/// service is not launched and has no start left to fail.
pub open spec fn is_stray_exit(handler: HandlerView, ev: EventView) -> bool {
    &&& ev matches EventView::ServiceExited(name, exit_code)
    &&& name == handler.service.name
    &&& !handler.service.accepts_exit_code(exit_code)
    &&& handler.status == ServiceStatus::Initial
    &&& handler.restart_attempts == handler.service.restart.attempts + 1
}

/// A service that has not been launched has a sound record: no failed start,
/// and no request to terminate.
pub proof fn lemma_fresh_handler_is_sound(service: ServiceView)
    ensures
        attempts_bounded(HandlerView::fresh(service)),
        termination_timed_while_killing(HandlerView::fresh(service)),
{
}

impl RuntimeView {
    /// An event changes at most the handler of the service it is addressed
    /// to, and that one as `handler_after` says; it keeps the services, their
    /// names and their order. Only the shutdown event changes whether the
    /// scheduler is shutting down.
    pub proof fn lemma_after_checked(self, ev: EventView)
        requires
            self.wf(),
        ensures
            self.after_checked(ev).wf(),
            self.after_checked(ev).repo.names() == self.repo.names(),
            self.after_checked(ev).repo.services.len() == self.repo.services.len(),
            self.after_checked(ev).is_shutting_down == (self.is_shutting_down || ev
                == EventView::ShuttingDownInitiated),
            forall|i: int|
                0 <= i < self.repo.services.len() ==> #[trigger] self.after_checked(
                    ev,
                ).repo.services[i] == if self.admits(ev) && ev.service_name() == Some(
                    self.repo.services[i].service.name,
                ) {
                    handler_after(self.repo.services[i], ev, self.is_shutting_down)
                } else {
                    self.repo.services[i]
                },
    {
        if self.admits(ev) {
            match ev.service_name() {
                Some(name) => {
                    self.repo.lemma_handler_name(name);
                    let at = self.repo.index_of(name);
                    let handler = self.repo.handler(name);
                    let changed = handler_after(handler, ev, self.is_shutting_down);
                    self.repo.lemma_with_handler(name, changed);
                    assert forall|i: int| 0 <= i < self.repo.services.len() implies (
                    self.repo.services[i].service.name == name <==> i == at) by {
                        self.repo.lemma_index_of(i);
                    }
                },
                None => {},
            }
        }
    }

    /// The status of a service moves only along the steps of `status_step`,
    /// whatever event is applied.
    pub proof fn lemma_status_follows_graph(self, ev: EventView, i: int)
        requires
            self.wf(),
            0 <= i < self.repo.services.len(),
        ensures
            self.after_checked(ev).repo.services[i].service == self.repo.services[i].service,
            self.after_checked(ev).repo.services[i].status == self.repo.services[i].status
                || status_step(
                self.repo.services[i].status,
                self.after_checked(ev).repo.services[i].status,
            ),
    {
        self.lemma_after_checked(ev);
    }

    /// Along any sequence of events, the statuses that a service goes through
    /// form a path: each is the one before, or one step of `status_step` away.
    pub proof fn lemma_statuses_form_a_path(self, events: Seq<EventView>, i: int, k: int)
        requires
            self.wf(),
            0 <= i < self.repo.services.len(),
            0 <= k < events.len(),
        ensures
            self.after_all(events.take(k)).wf(),
            self.after_all(events.take(k)).repo.services.len() == self.repo.services.len(),
            self.after_all(events.take(k + 1)) == self.after_all(events.take(k)).after_checked(
                events[k],
            ),
            ({
                let from = self.after_all(events.take(k)).repo.services[i].status;
                let to = self.after_all(events.take(k + 1)).repo.services[i].status;
                from == to || status_step(from, to)
            }),
    {
        self.lemma_after_all(events.take(k));
        assert(events.take(k + 1).drop_last() =~= events.take(k));
        self.after_all(events.take(k)).lemma_status_follows_graph(events[k], i);
    }

    /// Applying events keeps the services, their declarations and their order.
    pub proof fn lemma_after_all(self, events: Seq<EventView>)
        requires
            self.wf(),
        ensures
            self.after_all(events).wf(),
            self.after_all(events).repo.names() == self.repo.names(),
            self.after_all(events).repo.services.len() == self.repo.services.len(),
            forall|i: int|
                0 <= i < self.repo.services.len() ==> (#[trigger] self.after_all(
                    events,
                ).repo.services[i]).service == self.repo.services[i].service,
        decreases events.len(),
    {
        if events.len() > 0 {
            self.lemma_after_all(events.drop_last());
            self.after_all(events.drop_last()).lemma_after_checked(events.last());
        }
    }

    /// The record of failed starts stays sound under every event but one: a
    /// failed exit reported for a service that is not launched and has no
    /// start left to fail.
    pub proof fn lemma_restart_attempts_bounded(self, ev: EventView, i: int)
        requires
            self.wf(),
            0 <= i < self.repo.services.len(),
            attempts_bounded(self.repo.services[i]),
            !is_stray_exit(self.repo.services[i], ev),
        ensures
            attempts_bounded(self.after_checked(ev).repo.services[i]),
    {
        self.lemma_after_checked(ev);
    }

    /// A service in a terminal status keeps it under every event but the
    /// report that its process has exited.
    pub proof fn lemma_terminal_status_is_kept(self, ev: EventView, i: int)
        requires
            self.wf(),
            0 <= i < self.repo.services.len(),
            self.repo.services[i].status.terminal(),
            !(ev matches EventView::ServiceExited(name, _) && name
                == self.repo.services[i].service.name),
        ensures
            self.after_checked(ev).repo.services[i].status == self.repo.services[i].status,
    {
        self.lemma_after_checked(ev);
    }

    /// A service in a terminal status keeps it along any sequence of events
    /// that holds no report of the exit of its process.
    pub proof fn lemma_terminal_status_is_final(self, events: Seq<EventView>, i: int)
        requires
            self.wf(),
            0 <= i < self.repo.services.len(),
            self.repo.services[i].status.terminal(),
            forall|k: int|
                0 <= k < events.len() ==> !(#[trigger] events[k] matches EventView::ServiceExited(
                    name,
                    _,
                ) && name == self.repo.services[i].service.name),
        ensures
            self.after_all(events).repo.services[i].status == self.repo.services[i].status,
        decreases events.len(),
    {
        if events.len() > 0 {
            let earlier = events.drop_last();
            assert forall|k: int| 0 <= k < earlier.len() implies !(
            #[trigger] earlier[k] matches EventView::ServiceExited(name, _) && name
                == self.repo.services[i].service.name) by {
                assert(earlier[k] == events[k]);
            }
            self.lemma_terminal_status_is_final(earlier, i);
            self.lemma_after_all(earlier);
            self.after_all(earlier).lemma_terminal_status_is_kept(events.last(), i);
        }
    }

    /// The shutdown event a second time changes nothing, and asks nothing of
    /// the world outside either time.
    pub proof fn lemma_shutdown_is_idempotent(self)
        ensures
            self.admits(EventView::ShuttingDownInitiated),
            self.after(EventView::ShuttingDownInitiated).is_shutting_down,
            self.after(EventView::ShuttingDownInitiated).repo == self.repo,
            self.after(EventView::ShuttingDownInitiated).after(EventView::ShuttingDownInitiated)
                == self.after(EventView::ShuttingDownInitiated),
            self.reaction(EventView::ShuttingDownInitiated) == ReactionView::Nothing,
    {
    }

    /// A request to terminate a service that was never launched finishes it,
    /// without a signal, and any number of further requests change nothing.
    pub proof fn lemma_kill_of_initial_service(self, name: Seq<char>, repetitions: nat)
        requires
            self.wf(),
            self.repo.knows(name),
            self.repo.handler(name).status == ServiceStatus::Initial,
        ensures
            self.after(EventView::Kill(name)).repo.handler(name).status == ServiceStatus::Finished,
            self.reaction(EventView::Kill(name)) == ReactionView::Nothing,
            self.after(EventView::Kill(name)).after_all(
                Seq::new(repetitions, |k: int| EventView::Kill(name)),
            ) == self.after(EventView::Kill(name)),
        decreases repetitions,
    {
        let kill = EventView::Kill(name);
        let once = self.after(kill);
        self.repo.lemma_handler_name(name);
        self.repo.lemma_with_handler(name, self.repo.handler(name).after_kill());
        if repetitions > 0 {
            let fewer = Seq::new((repetitions - 1) as nat, |k: int| EventView::Kill(name));
            let all = Seq::new(repetitions, |k: int| EventView::Kill(name));
            self.lemma_kill_of_initial_service(name, (repetitions - 1) as nat);
            assert(all.drop_last() =~= fewer);
            once.repo.lemma_with_handler(name, once.repo.handler(name));
        }
    }

    /// With no failed start allowed, a service whose first launch fails before
    /// it is reported as started is not launched again: the exit makes it
    /// `Failed`, the events that follow ask for `FinishedFailed`, and once it
    /// is there it gives rise to no further event.
    pub proof fn lemma_single_attempt(self, name: Seq<char>, exit_code: i32, force_kill: bool)
        requires
            self.wf(),
            self.repo.knows(name),
            self.repo.handler(name).status == ServiceStatus::Starting,
            self.repo.handler(name).restart_attempts == 0,
            self.repo.handler(name).service.restart.attempts == 0,
            !self.repo.handler(name).service.accepts_exit_code(exit_code),
        ensures
            ({
                let exited = self.after(EventView::ServiceExited(name, exit_code));
                let request = EventView::StatusChanged(name, ServiceStatus::FinishedFailed);
                let ended = exited.after(request);
                &&& self.admits(EventView::ServiceExited(name, exit_code))
                &&& exited.repo.handler(name).status == ServiceStatus::Failed
                &&& exited.next_events(exited.repo.handler(name), force_kill).contains(request)
                &&& !exists|k: int|
                    0 <= k < exited.next_events(exited.repo.handler(name), force_kill).len()
                        && exited.next_events(exited.repo.handler(name), force_kill)[k]
                        == EventView::Run(name)
                &&& exited.admits(request)
                &&& ended.repo.handler(name).status == ServiceStatus::FinishedFailed
                &&& ended.next_events(ended.repo.handler(name), force_kill) == Seq::<
                    EventView,
                >::empty()
            }),
    {
        let exit = EventView::ServiceExited(name, exit_code);
        let request = EventView::StatusChanged(name, ServiceStatus::FinishedFailed);
        let handler = self.repo.handler(name);
        self.repo.lemma_handler_name(name);
        self.repo.lemma_with_handler(name, handler.after_exit(exit_code));
        let exited = self.after(exit);
        let failed = exited.repo.handler(name);
        exited.repo.lemma_with_handler(name, failed.after_status_change(ServiceStatus::FinishedFailed));
        let events = exited.next_events(failed, force_kill);
        let head = failure_events(
            exited.repo.dependents(name),
            failed.service,
        );
        let tail = kill_requests(exited.repo.die_if_failed(name));
        assert(events == head.push(request) + tail);
        assert(events[head.len() as int] == request);
        lemma_kill_requests_hold_no_launch(exited.repo.dependents(name), name);
        lemma_kill_requests_hold_no_launch(exited.repo.die_if_failed(name), name);
    }

    /// A service that is given no time to terminate is killed by force as
    /// soon as its process is known, its termination has been timed and the
    /// clock has moved on.
    pub proof fn lemma_no_grace(self, handler: HandlerView, elapsed_millis: nat)
        requires
            handler.status == ServiceStatus::InKilling,
            handler.service.termination.wait_millis == 0,
            handler.pid.is_some(),
            handler.termination_started,
            elapsed_millis > 0,
        ensures
            handler.force_kill_due(elapsed_millis),
            self.next_events(handler, handler.force_kill_due(elapsed_millis)) == seq![
                EventView::ForceKill(handler.service.name),
                EventView::StatusChanged(handler.service.name, ServiceStatus::FinishedFailed),
            ],
    {
    }

    /// A service without dependencies that has not been launched can be
    /// launched at once: unless the scheduler is shutting down, it gives
    /// rise to its own launch and to nothing else.
    pub proof fn lemma_no_dependencies(self, handler: HandlerView, force_kill: bool)
        requires
            handler.status == ServiceStatus::Initial,
            handler.service.dependencies.len() == 0,
        ensures
            self.repo.is_runnable(handler),
            !self.is_shutting_down ==> self.next_events(handler, force_kill) == seq![
                EventView::Run(handler.service.name),
            ],
    {
    }

    /// Applying a single event.
    pub proof fn lemma_after_one(self, ev: EventView)
        ensures
            self.after_all(seq![ev]) == self.after_checked(ev),
    {
        reveal_with_fuel(RuntimeView::after_all, 2);
    }

    /// Applying two events, one after the other.
    pub proof fn lemma_after_two(self, first: EventView, second: EventView)
        ensures
            self.after_all(seq![first, second]) == self.after_checked(first).after_checked(second),
    {
        assert(seq![first, second].drop_last() =~= seq![first]);
        self.lemma_after_one(first);
    }

    /// While the scheduler shuts down, a service that was never launched is
    /// finished by the events it gives rise to.
    pub proof fn lemma_shutdown_finishes_unlaunched_service(self, name: Seq<char>, force_kill: bool)
        requires
            self.wf(),
            self.repo.knows(name),
            self.is_shutting_down,
            self.repo.handler(name).status == ServiceStatus::Initial,
        ensures
            ({
                let events = self.next_events(self.repo.handler(name), force_kill);
                &&& events == seq![EventView::StatusChanged(name, ServiceStatus::Finished)]
                &&& self.after_all(events).repo.handler(name).status == ServiceStatus::Finished
            }),
    {
        let handler = self.repo.handler(name);
        self.repo.lemma_handler_name(name);
        self.repo.lemma_with_handler(name, handler.after_status_change(ServiceStatus::Finished));
        self.lemma_after_one(EventView::StatusChanged(name, ServiceStatus::Finished));
    }

    /// While the scheduler shuts down, a service that is up and whose process
    /// is known ends within two rounds and its grace, whatever its process
    /// does: the first round asks it to terminate, with the signal it is
    /// declared to terminate on, and once more time has passed than it is
    /// granted, the next round kills it by force and ends it in failure.
    pub proof fn lemma_shutdown_ends_running_service(self, name: Seq<char>, elapsed_millis: nat)
        requires
            self.wf(),
            self.repo.knows(name),
            self.is_shutting_down,
            self.repo.handler(name).status == ServiceStatus::Running || self.repo.handler(name).status
                == ServiceStatus::Started,
            self.repo.handler(name).pid.is_some(),
            elapsed_millis > self.repo.handler(name).service.termination.wait_millis,
        ensures
            ({
                let handler = self.repo.handler(name);
                let first = self.next_events(handler, false);
                let killing = self.after_all(first);
                let second = killing.next_events(
                    killing.repo.handler(name),
                    killing.repo.handler(name).force_kill_due(elapsed_millis),
                );
                let ended = killing.after_all(second);
                &&& first == seq![EventView::Kill(name)]
                &&& self.reaction(EventView::Kill(name)) == (ReactionView::Kill {
                    pid: handler.pid,
                    signal: handler.service.termination.signal,
                })
                &&& killing.repo.handler(name) == handler.terminating()
                &&& second == seq![
                    EventView::ForceKill(name),
                    EventView::StatusChanged(name, ServiceStatus::FinishedFailed),
                ]
                &&& killing.reaction(EventView::ForceKill(name)) == (ReactionView::Kill {
                    pid: handler.pid,
                    signal: TerminationSignal::KILL,
                })
                &&& ended.repo.handler(name).status == ServiceStatus::FinishedFailed
            }),
    {
        let handler = self.repo.handler(name);
        self.repo.lemma_handler_name(name);
        self.repo.lemma_with_handler(name, handler.after_kill());
        self.lemma_after_one(EventView::Kill(name));
        let killing = self.after_checked(EventView::Kill(name));
        let being_killed = killing.repo.handler(name);
        killing.repo.lemma_handler_name(name);
        killing.repo.lemma_with_handler(
            name,
            being_killed.after_status_change(ServiceStatus::FinishedFailed),
        );
        killing.lemma_after_two(
            EventView::ForceKill(name),
            EventView::StatusChanged(name, ServiceStatus::FinishedFailed),
        );
    }

    /// The time of a request to terminate is on record only for a service
    /// that is being killed or has ended since, whatever event is applied.
    pub proof fn lemma_termination_timed_while_killing(self, ev: EventView, i: int)
        requires
            self.wf(),
            0 <= i < self.repo.services.len(),
            termination_timed_while_killing(self.repo.services[i]),
        ensures
            termination_timed_while_killing(self.after_checked(ev).repo.services[i]),
    {
        self.lemma_after_checked(ev);
    }

    /// A service that is never restarted ends as soon as its process has
    /// exited: the events that follow ask for a terminal status, and the
    /// request is honoured.
    pub proof fn lemma_never_restarted_service_ends(self, name: Seq<char>, force_kill: bool)
        requires
            self.wf(),
            self.repo.knows(name),
            self.repo.handler(name).service.restart.strategy == RestartStrategy::Never,
            self.repo.handler(name).status == ServiceStatus::Success || self.repo.handler(
                name,
            ).status == ServiceStatus::Failed,
        ensures
            ({
                let target = if self.repo.handler(name).status == ServiceStatus::Success {
                    ServiceStatus::Finished
                } else {
                    ServiceStatus::FinishedFailed
                };
                let request = EventView::StatusChanged(name, target);
                &&& self.next_events(self.repo.handler(name), force_kill).contains(request)
                &&& self.after(request).repo.handler(name).status == target
                &&& target.terminal()
            }),
    {
        let handler = self.repo.handler(name);
        self.repo.lemma_handler_name(name);
        let target = if handler.status == ServiceStatus::Success {
            ServiceStatus::Finished
        } else {
            ServiceStatus::FinishedFailed
        };
        let request = EventView::StatusChanged(name, target);
        self.repo.lemma_with_handler(name, handler.after_status_change(target));
        let events = self.next_events(handler, force_kill);
        if handler.status == ServiceStatus::Success {
            assert(events[0] == request);
        } else {
            let head = failure_events(
                self.repo.dependents(name),
                handler.service,
            );
            assert(events[head.len() as int] == request);
        }
    }
}

/// Requests to kill services hold no request to launch one.
pub proof fn lemma_kill_requests_hold_no_launch(names: Seq<Seq<char>>, name: Seq<char>)
    ensures
        forall|k: int|
            0 <= k < kill_requests(names).len()
                ==> #[trigger] kill_requests(names)[k] != EventView::Run(name),
    decreases names.len(),
{
    if names.len() > 0 {
        lemma_kill_requests_hold_no_launch(names.drop_last(), name);
    }
}

} // verus!
