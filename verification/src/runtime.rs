//! The scheduler: it applies the events that arrive to the handlers and
//! derives from every handler the events that must follow.

use crate::bus::BusConnector;
use crate::formats::{
    contains_code, event_views, Event, EventView, ExitStatus, Service, ServiceStatus, ServiceView,
    TerminationSignal,
};
use crate::repo::{declared_names, fresh_handlers, Repo, RepoView};
use crate::service_handler::{HandlerView, ServiceHandler};
use crate::signal::{kill, KillOutcome};
use crate::state_machine::{
    failure_events, handle_failure_strategy, handle_restart_strategy, handle_service_exited,
    handle_status_changed_event, kill_requests, push_kill_requests, restart_event,
    should_force_kill,
};
use std::time::Instant;
use vstd::prelude::*;

verus! {

/// The scheduler as the state machine sees it.
pub struct RuntimeView {
    pub is_shutting_down: bool,
    pub repo: RepoView,
}

/// A request to launch a service, for whoever spawns processes: prepare the
/// health check of the service, wait for the backoff, then start the command.
#[derive(Debug, PartialEq, Eq)]
pub struct LaunchRequest {
    pub service: Service,
    /// The delay before the launch, in milliseconds.
    pub backoff_millis: u128,
}

/// What the application of an event has asked of the world outside.
#[derive(Debug, PartialEq, Eq)]
pub enum Reaction {
    /// Nothing beyond the change of state.
    Nothing,
    /// The service is to be launched.
    Launch(LaunchRequest),
    /// A signal was due to the process of the service.
    Kill(KillOutcome),
}

/// What an event asks of the world outside, as the contracts speak of it: a
/// launch with its delay, or a signal with the process it is due to.
pub enum ReactionView {
    Nothing,
    Launch { service: ServiceView, backoff_millis: nat },
    Kill { pid: Option<i32>, signal: TerminationSignal },
}

impl Reaction {
    /// Whether this reaction is the one that `expected` describes.
    pub open spec fn fits(self, expected: ReactionView) -> bool {
        match expected {
            ReactionView::Nothing => self is Nothing,
            ReactionView::Launch { service, backoff_millis } => {
                &&& self matches Reaction::Launch(request)
                &&& request.service@ == service
                &&& request.backoff_millis == backoff_millis
            },
            ReactionView::Kill { pid, signal } => {
                &&& self matches Reaction::Kill(outcome)
                &&& outcome.answers(pid, signal)
            },
        }
    }
}

impl RuntimeView {
    pub open spec fn wf(self) -> bool {
        self.repo.wf()
    }

    /// Whether `ev` can be applied: an event addressed to a service names one
    /// that exists, and an exit does not take the count of failed starts
    /// beyond what the counter holds.
    pub open spec fn admits(self, ev: EventView) -> bool {
        match ev {
            EventView::ServiceExited(name, exit_code) => self.repo.knows(name) && self.repo.handler(
                name,
            ).after_exit(exit_code).restart_attempts <= u32::MAX,
            _ => match ev.service_name() {
                Some(name) => self.repo.knows(name),
                None => true,
            },
        }
    }

    pub open spec fn with_handler(self, name: Seq<char>, handler: HandlerView) -> RuntimeView {
        RuntimeView { repo: self.repo.with_handler(name, handler), ..self }
    }

    /// Whether a request to launch `name` is followed.
    pub open spec fn launches(self, name: Seq<char>) -> bool {
        self.repo.handler(name).status == ServiceStatus::Initial && !self.is_shutting_down
    }

    /// The scheduler after `ev` has been applied.
    pub open spec fn after(self, ev: EventView) -> RuntimeView
        recommends
            self.admits(ev),
    {
        match ev {
            EventView::StatusChanged(name, target) => self.with_handler(
                name,
                self.repo.handler(name).after_status_change(target),
            ),
            EventView::ServiceExited(name, exit_code) => self.with_handler(
                name,
                self.repo.handler(name).after_exit(exit_code),
            ),
            EventView::Run(name) => if self.launches(name) {
                self.with_handler(name, self.repo.handler(name).launched())
            } else {
                self
            },
            EventView::Kill(name) => self.with_handler(name, self.repo.handler(name).after_kill()),
            EventView::ForceKill(_) => self,
            EventView::PidChanged(name, pid) => self.with_handler(
                name,
                self.repo.handler(name).after_pid_change(pid),
            ),
            EventView::ShuttingDownInitiated => RuntimeView { is_shutting_down: true, ..self },
            EventView::Exited(_, _) => self,
        }
    }

    /// What the application of `ev` asks of the world outside.
    pub open spec fn reaction(self, ev: EventView) -> ReactionView
        recommends
            self.admits(ev),
    {
        match ev {
            EventView::Run(name) => if self.launches(name) {
                let handler = self.repo.handler(name);
                ReactionView::Launch {
                    service: handler.service,
                    backoff_millis: (handler.service.restart.backoff_millis
                        * handler.restart_attempts) as nat,
                }
            } else {
                ReactionView::Nothing
            },
            EventView::Kill(name) => {
                let handler = self.repo.handler(name);
                if handler.is_killable() {
                    ReactionView::Kill {
                        pid: handler.pid,
                        signal: handler.service.termination.signal,
                    }
                } else {
                    ReactionView::Nothing
                }
            },
            EventView::ForceKill(name) => {
                let handler = self.repo.handler(name);
                if handler.status == ServiceStatus::InKilling {
                    ReactionView::Kill { pid: handler.pid, signal: TerminationSignal::KILL }
                } else {
                    ReactionView::Nothing
                }
            },
            EventView::PidChanged(name, pid) => {
                let handler = self.repo.handler(name);
                if handler.status == ServiceStatus::InKilling {
                    ReactionView::Kill {
                        pid: Some(pid),
                        signal: handler.service.termination.signal,
                    }
                } else {
                    ReactionView::Nothing
                }
            },
            _ => ReactionView::Nothing,
        }
    }

    /// The scheduler after `ev` has been applied, if it can be; as before, if not.
    pub open spec fn after_checked(self, ev: EventView) -> RuntimeView {
        if self.admits(ev) {
            self.after(ev)
        } else {
            self
        }
    }

    /// The scheduler after the events have been applied one after the other.
    pub open spec fn after_all(self, events: Seq<EventView>) -> RuntimeView
        decreases events.len(),
    {
        if events.len() == 0 {
            self
        } else {
            self.after_all(events.drop_last()).after_checked(events.last())
        }
    }

    /// The events that the state of `handler` gives rise to. `force_kill`
    /// says whether a service that is being killed has used up its grace.
    pub open spec fn next_events(self, handler: HandlerView, force_kill: bool) -> Seq<EventView> {
        let name = handler.service.name;
        if self.repo.is_runnable(handler) && !self.is_shutting_down {
            seq![EventView::Run(name)]
        } else {
            match handler.status {
                ServiceStatus::Initial => if self.is_shutting_down {
                    seq![EventView::StatusChanged(name, ServiceStatus::Finished)]
                } else {
                    Seq::empty()
                },
                ServiceStatus::Success => seq![restart_event(handler.service, false)],
                ServiceStatus::Failed => failure_events(
                    self.repo.dependents(name),
                    handler.service,
                ).push(
                    if handler.attempts_are_over() {
                        restart_event(handler.service, true)
                    } else {
                        EventView::StatusChanged(name, ServiceStatus::FinishedFailed)
                    },
                ) + kill_requests(self.repo.die_if_failed(name)),
                ServiceStatus::InKilling => if force_kill {
                    seq![
                        EventView::ForceKill(name),
                        EventView::StatusChanged(name, ServiceStatus::FinishedFailed),
                    ]
                } else {
                    Seq::empty()
                },
                ServiceStatus::Running | ServiceStatus::Started => if self.is_shutting_down {
                    seq![EventView::Kill(name)]
                } else {
                    Seq::empty()
                },
                _ => Seq::empty(),
            }
        }
    }

    /// The events that the first `count` handlers give rise to, in the order
    /// of the handlers, where the `i`-th was asked to terminate `elapsed[i]`
    /// milliseconds ago.
    pub open spec fn next_events_of_first(self, count: int, elapsed: Seq<nat>) -> Seq<EventView>
        decreases count,
    {
        if count <= 0 {
            Seq::empty()
        } else {
            let handler = self.repo.services[count - 1];
            self.next_events_of_first(count - 1, elapsed) + self.next_events(
                handler,
                handler.force_kill_due(elapsed[count - 1]),
            )
        }
    }

    /// How the supervisor ends: in failure if some service ended in failure.
    pub open spec fn exit_status(self) -> ExitStatus {
        if self.repo.any_finished_failed() {
            ExitStatus::SomeServiceFailed
        } else {
            ExitStatus::Successful
        }
    }
}

/// The scheduler: the handlers of all services, and whether the supervisor
/// as a whole is shutting down.
#[derive(Debug)]
pub struct Runtime {
    is_shutting_down: bool,
    repo: Repo,
}

impl View for Runtime {
    type V = RuntimeView;

    closed spec fn view(&self) -> RuntimeView {
        RuntimeView { is_shutting_down: self.is_shutting_down, repo: self.repo@ }
    }
}

impl Runtime {
    /// A scheduler over `services`, none of them launched, not shutting down.
    pub fn new(bus: BusConnector<Event>, services: Vec<Service>) -> (runtime: Self)
        requires
            declared_names(services@).no_duplicates(),
        ensures
            runtime@.wf(),
            !runtime@.is_shutting_down,
            runtime@.repo.services == fresh_handlers(services@),
    {
        let repo = Repo::new(bus, services);
        Self { repo, is_shutting_down: false }
    }

    pub fn is_shutting_down(&self) -> (shutting_down: bool)
        ensures
            shutting_down == self@.is_shutting_down,
    {
        self.is_shutting_down
    }

    /// The handlers of the services.
    pub fn repo(&self) -> (repo: &Repo)
        ensures
            repo@ == self@.repo,
    {
        &self.repo
    }

    /// Whether no two services share a name. It holds of every scheduler
    /// that `new` has made.
    pub fn is_well_formed(&self) -> (well_formed: bool)
        ensures
            well_formed == self@.wf(),
    {
        self.repo.is_well_formed()
    }

    /// Whether `ev` can be applied.
    pub fn admits(&self, ev: &Event) -> (admitted: bool)
        requires
            self@.wf(),
        ensures
            admitted == self@.admits(ev@),
    {
        match ev {
            Event::ServiceExited(service_name, exit_code) => {
                match self.repo.position(service_name) {
                    Some(i) => {
                        let handler = self.repo.handler_at(i);
                        let counts = !contains_code(
                            &handler.service.failure.successful_exit_code,
                            *exit_code,
                        ) && (handler.status == ServiceStatus::Started || handler.status
                            == ServiceStatus::Initial);
                        !counts || handler.restart_attempts < u32::MAX
                    },
                    None => false,
                }
            },
            _ => match ev.service_name() {
                Some(service_name) => self.repo.knows(service_name),
                None => true,
            },
        }
    }

    /// Applies `ev` to the state of the services, and does or hands out what
    /// the event asks of the world outside.
    pub fn apply_event(&mut self, ev: Event) -> (reaction: Reaction)
        requires
            old(self)@.wf(),
            old(self)@.admits(ev@),
        ensures
            final(self)@.wf(),
            final(self)@ == old(self)@.after(ev@),
            reaction.fits(old(self)@.reaction(ev@)),
    {
        let ghost before = self@;
        proof {
            if let Some(name) = ev@.service_name() {
                before.repo.lemma_handler_name(name);
            }
        }
        match ev {
            Event::StatusChanged(service_name, new_status) => {
                let ghost name = service_name@;
                let service_handler = self.repo.get_mut_sh(&service_name);
                handle_status_changed_event(service_name, new_status, service_handler);
                proof {
                    before.repo.lemma_with_handler(
                        name,
                        before.repo.handler(name).after_status_change(new_status),
                    );
                }
                Reaction::Nothing
            },
            Event::ServiceExited(service_name, exit_code) => {
                let service_handler = self.repo.get_mut_sh(&service_name);
                handle_service_exited(service_handler, exit_code);
                proof {
                    before.repo.lemma_with_handler(
                        service_name@,
                        before.repo.handler(service_name@).after_exit(exit_code),
                    );
                }
                Reaction::Nothing
            },
            Event::Run(service_name) => {
                if self.repo.get_sh(&service_name).is_initial() && !self.is_shutting_down {
                    let service_handler = self.repo.get_mut_sh(&service_name);
                    service_handler.status = ServiceStatus::Starting;
                    let base = service_handler.service.restart.backoff_millis as u128;
                    let attempts = service_handler.restart_attempts as u128;
                    assert(base * attempts <= 0xffff_ffff_ffff_ffff * 0xffff_ffff) by (nonlinear_arith)
                        requires
                            0 <= base <= 0xffff_ffff_ffff_ffff,
                            0 <= attempts <= 0xffff_ffff,
                    ;
                    let backoff_millis = base * attempts;
                    let service = service_handler.service.clone();
                    proof {
                        before.repo.lemma_with_handler(
                            service_name@,
                            before.repo.handler(service_name@).launched(),
                        );
                    }
                    Reaction::Launch(LaunchRequest { service, backoff_millis })
                } else {
                    Reaction::Nothing
                }
            },
            Event::Kill(service_name) => {
                let service_handler = self.repo.get_mut_sh(&service_name);
                let reaction = if service_handler.is_initial() {
                    service_handler.status = ServiceStatus::Finished;
                    Reaction::Nothing
                } else if service_handler.is_running() || service_handler.is_started()
                    || service_handler.is_starting() {
                    service_handler.shutting_down_started();
                    Reaction::Kill(kill(service_handler, None))
                } else {
                    Reaction::Nothing
                };
                proof {
                    before.repo.lemma_with_handler(
                        service_name@,
                        before.repo.handler(service_name@).after_kill(),
                    );
                }
                reaction
            },
            Event::ForceKill(service_name) => {
                let service_handler = self.repo.get_sh(&service_name);
                if service_handler.is_in_killing() {
                    Reaction::Kill(kill(service_handler, Some(TerminationSignal::KILL)))
                } else {
                    Reaction::Nothing
                }
            },
            Event::PidChanged(service_name, pid) => {
                let service_handler = self.repo.get_mut_sh(&service_name);
                service_handler.pid = Some(pid);
                let reaction = if service_handler.is_in_killing() {
                    service_handler.shutting_down_start = Some(Instant::now());
                    Reaction::Kill(kill(service_handler, None))
                } else {
                    Reaction::Nothing
                };
                proof {
                    before.repo.lemma_with_handler(
                        service_name@,
                        before.repo.handler(service_name@).after_pid_change(pid),
                    );
                }
                reaction
            },
            Event::ShuttingDownInitiated => {
                self.is_shutting_down = true;
                Reaction::Nothing
            },
            Event::Exited(_, _) => Reaction::Nothing,
        }
    }

    /// Applies `ev` if it can be applied, and says what it asked of the world
    /// outside. An event that cannot be applied changes nothing and gives
    /// `None`: it names no service of this scheduler, or it would count one
    /// failed start more than the counter holds.
    pub fn try_apply_event(&mut self, ev: Event) -> (reaction: Option<Reaction>)
        requires
            old(self)@.wf(),
        ensures
            final(self)@.wf(),
            final(self)@ == old(self)@.after_checked(ev@),
            match reaction {
                Some(r) => old(self)@.admits(ev@) && r.fits(old(self)@.reaction(ev@)),
                None => !old(self)@.admits(ev@),
            },
    {
        if self.admits(&ev) {
            Some(self.apply_event(ev))
        } else {
            None
        }
    }

    /// Applies the events one after the other. The result has one entry per
    /// event, as `try_apply_event` gives it.
    pub fn apply_events(&mut self, events: &Vec<Event>) -> (reactions: Vec<Option<Reaction>>)
        requires
            old(self)@.wf(),
        ensures
            final(self)@.wf(),
            final(self)@ == old(self)@.after_all(event_views(events@)),
            reactions@.len() == events@.len(),
            forall|i: int|
                0 <= i < events@.len() ==> {
                    let before = old(self)@.after_all(event_views(events@).take(i));
                    match #[trigger] reactions@[i] {
                        Some(r) => before.admits(events@[i]@) && r.fits(before.reaction(events@[i]@)),
                        None => !before.admits(events@[i]@),
                    }
                },
    {
        let ghost start = self@;
        let ghost all = event_views(events@);
        let mut reactions: Vec<Option<Reaction>> = Vec::new();
        let mut i: usize = 0;
        while i < events.len()
            invariant
                i <= events.len(),
                all == event_views(events@),
                self@.wf(),
                self@ == start.after_all(all.take(i as int)),
                reactions@.len() == i,
                forall|j: int|
                    0 <= j < i ==> {
                        let before = start.after_all(all.take(j));
                        match #[trigger] reactions@[j] {
                            Some(r) => before.admits(events@[j]@) && r.fits(
                                before.reaction(events@[j]@),
                            ),
                            None => !before.admits(events@[j]@),
                        }
                    },
            decreases events.len() - i,
        {
            assert(all.take(i + 1).drop_last() =~= all.take(i as int));
            let reaction = self.try_apply_event(events[i].clone());
            reactions.push(reaction);
            i += 1;
        }
        assert(all.take(all.len() as int) =~= all);
        reactions
    }

    /// Computes the events that the state of `service_handler` gives rise to,
    /// where `force_kill` says whether a service that is being killed has used
    /// up its grace.
    pub fn next_given(&self, service_handler: &ServiceHandler, force_kill: bool) -> (events: Vec<Event>)
        requires
            self@.wf(),
        ensures
            event_views(events@) == self@.next_events(service_handler@, force_kill),
    {
        let name = service_handler.name();
        let mut events: Vec<Event> = Vec::new();
        if self.repo.is_service_runnable(service_handler) && !self.is_shutting_down {
            events.push(Event::Run(name.clone()));
            return events;
        }
        match service_handler.status {
            ServiceStatus::Initial => {
                if self.is_shutting_down {
                    events.push(Event::new_status_changed(name, ServiceStatus::Finished));
                }
            },
            ServiceStatus::Success => {
                events.push(handle_restart_strategy(service_handler.service(), false));
            },
            ServiceStatus::Failed => {
                let attempts_are_over = service_handler.restart_attempts_are_over();
                let mut failure_evs = handle_failure_strategy(
                    self.repo.get_dependents(name.clone()),
                    service_handler.service(),
                );
                let other_services_termination = self.repo.get_die_if_failed(name);
                let service_ev = if !attempts_are_over {
                    Event::new_status_changed(name, ServiceStatus::FinishedFailed)
                } else {
                    handle_restart_strategy(service_handler.service(), true)
                };
                failure_evs.push(service_ev);
                push_kill_requests(&mut failure_evs, &other_services_termination);
                return failure_evs;
            },
            ServiceStatus::InKilling => {
                if force_kill {
                    events.push(Event::new_force_kill(name));
                    events.push(Event::new_status_changed(name, ServiceStatus::FinishedFailed));
                }
            },
            ServiceStatus::Running | ServiceStatus::Started => {
                if self.is_shutting_down {
                    events.push(Event::Kill(name.clone()));
                }
            },
            _ => {},
        }
        events
    }

    /// Computes the events that the state of `service_handler` gives rise to
    /// now: whether a service that is being killed has used up its grace is
    /// read off the clock.
    pub fn next(&self, service_handler: &ServiceHandler) -> (events: Vec<Event>)
        requires
            self@.wf(),
        ensures
            exists|elapsed_millis: nat|
                event_views(events@) == self@.next_events(
                    service_handler@,
                    service_handler@.force_kill_due(elapsed_millis),
                ),
    {
        let force_kill = if service_handler.is_in_killing() {
            should_force_kill(service_handler)
        } else {
            false
        };
        let events = self.next_given(service_handler, force_kill);
        proof {
            if service_handler@.status != ServiceStatus::InKilling {
                assert(event_views(events@) == self@.next_events(
                    service_handler@,
                    service_handler@.force_kill_due(0),
                ));
            }
        }
        events
    }

    /// Computes, handler after handler, the events that the state of the
    /// services gives rise to now.
    pub fn next_for_all(&self) -> (events: Vec<Event>)
        requires
            self@.wf(),
        ensures
            exists|elapsed: Seq<nat>|
                elapsed.len() == self@.repo.services.len() && event_views(events@)
                    == self@.next_events_of_first(self@.repo.services.len() as int, elapsed),
    {
        let mut events: Vec<Event> = Vec::new();
        let ghost elapsed: Seq<nat> = Seq::empty();
        let mut i: usize = 0;
        while i < self.repo.len()
            invariant
                i <= self@.repo.services.len(),
                self@.wf(),
                elapsed.len() == i,
                event_views(events@) == self@.next_events_of_first(i as int, elapsed),
            decreases self@.repo.services.len() - i,
        {
            let handler = self.repo.handler_at(i);
            let mut more = self.next(handler);
            let ghost added = more@;
            proof {
                let e = choose|e: nat|
                    event_views(added) == self@.next_events(handler@, handler@.force_kill_due(e));
                let longer = elapsed.push(e);
                self@.lemma_next_events_of_first(i as int, elapsed, longer);
                elapsed = longer;
            }
            events.append(&mut more);
            i += 1;
        }
        events
    }

    /// Publishes the events on the bus, in order. The result is false if the
    /// bus was gone for one of them; with nothing to publish, nothing can be
    /// lost and the result is true.
    pub fn publish(&mut self, events: &Vec<Event>) -> (published: bool)
        ensures
            final(self)@ == old(self)@,
            events@.len() == 0 ==> published,
    {
        let mut published = true;
        let mut i: usize = 0;
        while i < events.len()
            invariant
                i <= events.len(),
                self@ == old(self)@,
                i == 0 ==> published,
            decreases events.len() - i,
        {
            let taken = self.repo.send_ev(events[i].clone());
            published = published && taken;
            i += 1;
        }
        published
    }

    /// One round of the scheduler. It takes events from the bus: if the round
    /// before has published events, `has_emit_ev` of them, it waits for one
    /// and takes no more than that many; if the round before has published
    /// none, it takes what is waiting. If a request to end the supervisor has
    /// been seen and the shutdown has not begun, it publishes the shutdown.
    /// Then it applies the events taken, and publishes what the state of the
    /// services now gives rise to.
    pub fn tick(&mut self, has_emit_ev: usize, sigterm_received: bool) -> (report: TickReport)
        requires
            old(self)@.wf(),
        ensures
            final(self)@.wf(),
            has_emit_ev > 0 ==> report.inbound@.len() <= has_emit_ev,
            final(self)@ == old(self)@.after_all(event_views(report.inbound@)),
            report.reactions@.len() == report.inbound@.len(),
            forall|i: int|
                0 <= i < report.inbound@.len() ==> {
                    let before = old(self)@.after_all(event_views(report.inbound@).take(i));
                    match #[trigger] report.reactions@[i] {
                        Some(r) => before.admits(report.inbound@[i]@) && r.fits(
                            before.reaction(report.inbound@[i]@),
                        ),
                        None => !before.admits(report.inbound@[i]@),
                    }
                },
            report.shutdown_requested == (sigterm_received && !old(self)@.is_shutting_down),
            exists|elapsed: Seq<nat>|
                elapsed.len() == final(self)@.repo.services.len() && event_views(report.outbound@)
                    == final(self)@.next_events_of_first(
                    final(self)@.repo.services.len() as int,
                    elapsed,
                ),
    {
        let inbound = if has_emit_ev > 0 {
            self.repo.get_n_events_blocking(has_emit_ev)
        } else {
            self.repo.get_events()
        };
        let shutdown_requested = sigterm_received && !self.is_shutting_down;
        let mut published = true;
        if shutdown_requested {
            published = self.repo.send_ev(Event::ShuttingDownInitiated);
        }
        let reactions = self.apply_events(&inbound);
        let outbound = self.next_for_all();
        let sent = self.publish(&outbound);
        TickReport {
            inbound,
            reactions,
            shutdown_requested,
            outbound,
            published: published && sent,
        }
    }

    /// Ends the scheduler: it publishes the shutdown unless it has begun,
    /// announces its own departure, and says how the supervisor ends.
    pub fn finish(&mut self) -> (exit: Exit)
        ensures
            final(self)@ == old(self)@,
            exit.status == old(self)@.exit_status(),
            event_views(exit.announced@) == exit_events(old(self)@.is_shutting_down),
    {
        let status = if self.repo.any_finished_failed() {
            ExitStatus::SomeServiceFailed
        } else {
            ExitStatus::Successful
        };
        let mut announced: Vec<Event> = Vec::new();
        if !self.is_shutting_down {
            announced.push(Event::ShuttingDownInitiated);
        }
        announced.push(Event::new_exit_success("Runtime"));
        let published = self.publish(&announced);
        Exit { status, announced, published }
    }
}

impl RuntimeView {
    /// The events of the first `count` handlers depend on the times of those
    /// handlers only, and one handler more adds its own events at the end.
    pub proof fn lemma_next_events_of_first(self, count: int, elapsed: Seq<nat>, longer: Seq<nat>)
        requires
            0 <= count <= elapsed.len(),
            elapsed.len() <= longer.len(),
            forall|i: int| 0 <= i < count ==> elapsed[i] == longer[i],
        ensures
            self.next_events_of_first(count, longer) == self.next_events_of_first(count, elapsed),
        decreases count,
    {
        if count > 0 {
            self.lemma_next_events_of_first(count - 1, elapsed, longer);
        }
    }
}

/// The announcements with which the scheduler ends.
pub open spec fn exit_events(is_shutting_down: bool) -> Seq<EventView> {
    let departure = EventView::Exited("Runtime"@, true);
    if is_shutting_down {
        seq![departure]
    } else {
        seq![EventView::ShuttingDownInitiated, departure]
    }
}

/// What one round of the scheduler has seen and done.
#[derive(Debug, PartialEq, Eq)]
pub struct TickReport {
    /// The events taken from the bus, in the order in which they were applied.
    pub inbound: Vec<Event>,
    /// For each inbound event, what it asked of the world outside; `None` for
    /// an event that could not be applied.
    pub reactions: Vec<Option<Reaction>>,
    /// Whether this round has published the shutdown of the supervisor.
    pub shutdown_requested: bool,
    /// The events published at the end of the round.
    pub outbound: Vec<Event>,
    /// Whether the bus took everything that this round published.
    pub published: bool,
}

/// How the scheduler ended.
#[derive(Debug, PartialEq, Eq)]
pub struct Exit {
    pub status: ExitStatus,
    /// The events published on the way out.
    pub announced: Vec<Event>,
    /// Whether the bus took them.
    pub published: bool,
}

} // verus!
