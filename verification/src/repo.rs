//! The owner of every service handler, and the questions that are asked of
//! the fleet as a whole.

use crate::bus::BusConnector;
use crate::formats::{contains_name, name_views, Event, Service, ServiceName, ServiceStatus};
use crate::service_handler::{HandlerView, ServiceHandler};
use vstd::prelude::*;

verus! {

/// The fleet as the state machine sees it: the handlers, in a fixed order.
pub struct RepoView {
    pub services: Seq<HandlerView>,
}

/// The names of those among `services` that list `name` as a dependency.
pub open spec fn dependents_among(services: Seq<HandlerView>, name: Seq<char>) -> Seq<Seq<char>>
    decreases services.len(),
{
    if services.len() == 0 {
        Seq::empty()
    } else {
        let before = dependents_among(services.drop_last(), name);
        if services.last().service.dependencies.contains(name) {
            before.push(services.last().service.name)
        } else {
            before
        }
    }
}

/// The names of those among `services` that are to die when `name` fails.
pub open spec fn die_if_failed_among(services: Seq<HandlerView>, name: Seq<char>) -> Seq<Seq<char>>
    decreases services.len(),
{
    if services.len() == 0 {
        Seq::empty()
    } else {
        let before = die_if_failed_among(services.drop_last(), name);
        if services.last().service.termination.die_if_failed.contains(name) {
            before.push(services.last().service.name)
        } else {
            before
        }
    }
}

impl RepoView {
    /// The names of the services, in the order of the handlers.
    pub open spec fn names(self) -> Seq<Seq<char>> {
        self.services.map_values(|handler: HandlerView| handler.service.name)
    }

    /// A name identifies one service.
    pub open spec fn wf(self) -> bool {
        self.names().no_duplicates()
    }

    pub open spec fn knows(self, name: Seq<char>) -> bool {
        self.names().contains(name)
    }

    pub open spec fn index_of(self, name: Seq<char>) -> int {
        self.names().index_of(name)
    }

    /// The handler of the service called `name`.
    pub open spec fn handler(self, name: Seq<char>) -> HandlerView
        recommends
            self.knows(name),
    {
        self.services[self.index_of(name)]
    }

    /// The fleet with `handler` in the place of the service called `name`.
    pub open spec fn with_handler(self, name: Seq<char>, handler: HandlerView) -> RepoView
        recommends
            self.knows(name),
    {
        RepoView { services: self.services.update(self.index_of(name), handler) }
    }

    /// Whether `name` is a service of the fleet that is started or running.
    pub open spec fn is_up(self, name: Seq<char>) -> bool {
        self.knows(name) && (self.handler(name).status == ServiceStatus::Running || self.handler(
            name,
        ).status == ServiceStatus::Started)
    }

    /// A service can be launched when it has not been launched yet and every
    /// service it depends on is up.
    pub open spec fn is_runnable(self, handler: HandlerView) -> bool {
        handler.status == ServiceStatus::Initial && forall|i: int|
            0 <= i < handler.service.dependencies.len() ==> self.is_up(
                #[trigger] handler.service.dependencies[i],
            )
    }

    /// The names of the services that list `name` as a dependency.
    pub open spec fn dependents(self, name: Seq<char>) -> Seq<Seq<char>> {
        dependents_among(self.services, name)
    }

    /// The names of the services that are to die when `name` fails.
    pub open spec fn die_if_failed(self, name: Seq<char>) -> Seq<Seq<char>> {
        die_if_failed_among(self.services, name)
    }

    pub open spec fn all_have_finished(self) -> bool {
        forall|i: int| 0 <= i < self.services.len() ==> (#[trigger] self.services[i]).status.terminal()
    }

    pub open spec fn any_finished_failed(self) -> bool {
        exists|i: int|
            0 <= i < self.services.len() && (#[trigger] self.services[i]).status
                == ServiceStatus::FinishedFailed
    }

    /// In a well-formed fleet, the handler at `i` is the one its name leads to.
    pub proof fn lemma_index_of(self, i: int)
        requires
            self.wf(),
            0 <= i < self.services.len(),
        ensures
            self.knows(self.services[i].service.name),
            self.index_of(self.services[i].service.name) == i,
            self.handler(self.services[i].service.name) == self.services[i],
    {
        assert(self.names()[i] == self.services[i].service.name);
    }

    /// A known name leads to a handler of that name.
    pub proof fn lemma_handler_name(self, name: Seq<char>)
        requires
            self.knows(name),
        ensures
            0 <= self.index_of(name) < self.services.len(),
            self.handler(name).service.name == name,
    {
    }

    /// Replacing a handler by one of the same name keeps every name in place.
    pub proof fn lemma_with_handler(self, name: Seq<char>, handler: HandlerView)
        requires
            self.wf(),
            self.knows(name),
            handler.service.name == name,
        ensures
            self.with_handler(name, handler).names() == self.names(),
            self.with_handler(name, handler).wf(),
            self.with_handler(name, handler).handler(name) == handler,
            handler == self.handler(name) ==> self.with_handler(name, handler) == self,
            forall|other: Seq<char>|
                other != name && self.knows(other) ==> #[trigger] self.with_handler(
                    name,
                    handler,
                ).handler(other) == self.handler(other),
    {
        let after = self.with_handler(name, handler);
        assert(after.names() =~= self.names());
        if handler == self.handler(name) {
            assert(after.services =~= self.services);
        }
    }
}

/// The names under which `services` are declared, in order.
pub open spec fn declared_names(services: Seq<Service>) -> Seq<Seq<char>> {
    services.map_values(|service: Service| service@.name)
}

/// The handlers that `services` start with, in order.
pub open spec fn fresh_handlers(services: Seq<Service>) -> Seq<HandlerView> {
    services.map_values(|service: Service| HandlerView::fresh(service@))
}

/// Whether no two of `services` share a name.
pub fn have_distinct_names(services: &Vec<Service>) -> (distinct: bool)
    ensures
        distinct == declared_names(services@).no_duplicates(),
{
    let ghost names = declared_names(services@);
    let mut i: usize = 0;
    while i < services.len()
        invariant
            i <= services.len(),
            names == declared_names(services@),
            forall|a: int, b: int| 0 <= a < b < i ==> names[a] != names[b],
        decreases services.len() - i,
    {
        let mut j: usize = 0;
        while j < i
            invariant
                j <= i,
                i < services.len(),
                names == declared_names(services@),
                forall|a: int| 0 <= a < j ==> names[a] != names[i as int],
            decreases i - j,
        {
            if services[j].name == services[i].name {
                assert(names[j as int] == names[i as int]);
                return false;
            }
            j += 1;
        }
        i += 1;
    }
    true
}

fn into_handlers(services: Vec<Service>) -> (handlers: Vec<ServiceHandler>)
    ensures
        handler_views(handlers@) == fresh_handlers(services@),
{
    let mut handlers: Vec<ServiceHandler> = Vec::new();
    for service in it: services
        invariant
            it.seq() == services@,
            handlers@.len() == it.index(),
            handler_views(handlers@) == fresh_handlers(it.seq().take(it.index() as int)),
    {
        let ghost before = handlers@;
        handlers.push(ServiceHandler::new(service));
        assert forall|j: int| 0 <= j < handlers@.len() implies handler_views(handlers@)[j]
            == fresh_handlers(it.seq().take(it.index() + 1))[j] by {
            if j < before.len() {
                assert(handler_views(before)[j] == fresh_handlers(
                    it.seq().take(it.index() as int),
                )[j]);
            }
        }
    }
    handlers
}

/// The handlers in `handlers`, each by its view.
pub open spec fn handler_views(handlers: Seq<ServiceHandler>) -> Seq<HandlerView> {
    handlers.map_values(|handler: ServiceHandler| handler@)
}

/// The handlers of all services, with the connector through which the
/// supervisor talks to the bus.
#[derive(Debug)]
pub struct Repo {
    services: Vec<ServiceHandler>,
    bus: BusConnector<Event>,
}

impl View for Repo {
    type V = RepoView;

    closed spec fn view(&self) -> RepoView {
        RepoView { services: handler_views(self.services@) }
    }
}

impl Repo {
    /// One handler per service, each in its initial state.
    pub fn new(bus: BusConnector<Event>, services: Vec<Service>) -> (repo: Repo)
        requires
            declared_names(services@).no_duplicates(),
        ensures
            repo@.services == fresh_handlers(services@),
            repo@.wf(),
            repo.connector_id() == bus.sender_id(),
    {
        let ghost declared = services@;
        let handlers = into_handlers(services);
        let repo = Repo { services: handlers, bus };
        assert(repo@.names() =~= declared_names(declared));
        repo
    }

    /// The identifier under which the repo publishes on the bus.
    pub closed spec fn connector_id(&self) -> u64 {
        self.bus.sender_id()
    }

    /// Whether no two services share a name. It holds of every repo that
    /// `new` has made, and stays as long as no handler is given another name.
    pub fn is_well_formed(&self) -> (well_formed: bool)
        ensures
            well_formed == self@.wf(),
    {
        let ghost names = self@.names();
        let mut i: usize = 0;
        while i < self.services.len()
            invariant
                i <= self.services.len(),
                names == self@.names(),
                forall|a: int, b: int| 0 <= a < b < i ==> names[a] != names[b],
            decreases self.services.len() - i,
        {
            let mut j: usize = 0;
            while j < i
                invariant
                    j <= i,
                    i < self.services.len(),
                    names == self@.names(),
                    forall|a: int| 0 <= a < j ==> names[a] != names[i as int],
                decreases i - j,
            {
                if self.services[j].service.name == self.services[i].service.name {
                    assert(names[j as int] == names[i as int]);
                    return false;
                }
                j += 1;
            }
            i += 1;
        }
        true
    }

    /// The number of services.
    pub fn len(&self) -> (count: usize)
        ensures
            count == self@.services.len(),
    {
        self.services.len()
    }

    /// The handler at position `i`.
    pub fn handler_at(&self, i: usize) -> (handler: &ServiceHandler)
        requires
            i < self@.services.len(),
        ensures
            handler@ == self@.services[i as int],
    {
        &self.services[i]
    }

    /// The first position at which a service called `service_name` stands.
    pub fn position(&self, service_name: &ServiceName) -> (found: Option<usize>)
        ensures
            match found {
                Some(i) => i < self@.services.len() && self@.services[i as int].service.name
                    == service_name@,
                None => !self@.knows(service_name@),
            },
            self@.wf() ==> match found {
                Some(i) => self@.knows(service_name@) && self@.index_of(service_name@) == i,
                None => true,
            },
    {
        let mut i: usize = 0;
        while i < self.services.len()
            invariant
                i <= self.services.len(),
                forall|j: int| 0 <= j < i ==> self@.names()[j] != service_name@,
            decreases self.services.len() - i,
        {
            if self.services[i].service.name == *service_name {
                proof {
                    if self@.wf() {
                        self@.lemma_index_of(i as int);
                    }
                }
                return Some(i);
            }
            i += 1;
        }
        None
    }

    /// Whether a service called `service_name` exists.
    pub fn knows(&self, service_name: &ServiceName) -> (known: bool)
        ensures
            known == self@.knows(service_name@),
    {
        let found = self.position(service_name);
        proof {
            if let Some(i) = found {
                assert(self@.names()[i as int] == service_name@);
            }
        }
        found.is_some()
    }

    /// The handler of the service called `service_name`.
    pub fn get_sh(&self, service_name: &ServiceName) -> (handler: &ServiceHandler)
        requires
            self@.wf(),
            self@.knows(service_name@),
        ensures
            handler@ == self@.handler(service_name@),
    {
        let found = self.position(service_name);
        let i = found.unwrap();
        &self.services[i]
    }

    /// The handler of the service called `service_name`, to be changed in place.
    pub fn get_mut_sh(&mut self, service_name: &ServiceName) -> (handler: &mut ServiceHandler)
        requires
            old(self)@.wf(),
            old(self)@.knows(service_name@),
        ensures
            handler@ == old(self)@.handler(service_name@),
            final(self)@ == old(self)@.with_handler(service_name@, final(handler)@),
            final(self).connector_id() == old(self).connector_id(),
    {
        let found = self.position(service_name);
        let i = found.unwrap();
        proof {
            assert forall|h: ServiceHandler|
                handler_views(#[trigger] self.services@.update(i as int, h)) == self@.services.update(
                    i as int,
                    h@,
                ) by {}
        }
        &mut self.services[i]
    }

    /// Whether the service can be launched: it has not been launched yet and
    /// every service it depends on is started or running.
    pub fn is_service_runnable(&self, sh: &ServiceHandler) -> (runnable: bool)
        requires
            self@.wf(),
        ensures
            runnable == self@.is_runnable(sh@),
    {
        if !sh.is_initial() {
            return false;
        }
        let dependencies = sh.start_after();
        let mut i: usize = 0;
        while i < dependencies.len()
            invariant
                i <= dependencies.len(),
                self@.wf(),
                name_views(dependencies@) == sh@.service.dependencies,
                forall|j: int| 0 <= j < i ==> self@.is_up(#[trigger] sh@.service.dependencies[j]),
            decreases dependencies.len() - i,
        {
            let up = match self.position(&dependencies[i]) {
                Some(at) => self.services[at].is_running() || self.services[at].is_started(),
                None => false,
            };
            if !up {
                assert(!self@.is_up(sh@.service.dependencies[i as int]));
                return false;
            }
            i += 1;
        }
        true
    }

    /// The names of the services that list `service_name` as a dependency, in
    /// the order of the handlers.
    pub fn get_dependents(&self, service_name: ServiceName) -> (names: Vec<ServiceName>)
        ensures
            name_views(names@) == self@.dependents(service_name@),
    {
        let mut names: Vec<ServiceName> = Vec::new();
        let mut i: usize = 0;
        while i < self.services.len()
            invariant
                i <= self.services.len(),
                name_views(names@) == dependents_among(self@.services.take(i as int), service_name@),
            decreases self.services.len() - i,
        {
            assert(self@.services.take(i + 1).drop_last() =~= self@.services.take(i as int));
            if contains_name(&self.services[i].service.dependencies, &service_name) {
                names.push(self.services[i].service.name.clone());
            }
            i += 1;
        }
        assert(self@.services.take(self@.services.len() as int) =~= self@.services);
        names
    }

    /// The names of the services that are to die when `service_name` fails,
    /// in the order of the handlers.
    pub fn get_die_if_failed(&self, service_name: &ServiceName) -> (names: Vec<ServiceName>)
        ensures
            name_views(names@) == self@.die_if_failed(service_name@),
    {
        let mut names: Vec<ServiceName> = Vec::new();
        let mut i: usize = 0;
        while i < self.services.len()
            invariant
                i <= self.services.len(),
                name_views(names@) == die_if_failed_among(
                    self@.services.take(i as int),
                    service_name@,
                ),
            decreases self.services.len() - i,
        {
            assert(self@.services.take(i + 1).drop_last() =~= self@.services.take(i as int));
            if contains_name(&self.services[i].service.termination.die_if_failed, service_name) {
                names.push(self.services[i].service.name.clone());
            }
            i += 1;
        }
        assert(self@.services.take(self@.services.len() as int) =~= self@.services);
        names
    }

    /// Whether every service has reached a terminal status.
    pub fn all_have_finished(&self) -> (finished: bool)
        ensures
            finished == self@.all_have_finished(),
    {
        let mut i: usize = 0;
        while i < self.services.len()
            invariant
                i <= self.services.len(),
                forall|j: int| 0 <= j < i ==> (#[trigger] self@.services[j]).status.terminal(),
            decreases self.services.len() - i,
        {
            if !self.services[i].status.is_terminal() {
                assert(!self@.services[i as int].status.terminal());
                return false;
            }
            i += 1;
        }
        true
    }

    /// Whether some service has ended in failure.
    pub fn any_finished_failed(&self) -> (failed: bool)
        ensures
            failed == self@.any_finished_failed(),
    {
        let mut i: usize = 0;
        while i < self.services.len()
            invariant
                i <= self.services.len(),
                forall|j: int|
                    0 <= j < i ==> (#[trigger] self@.services[j]).status
                        != ServiceStatus::FinishedFailed,
            decreases self.services.len() - i,
        {
            if self.services[i].status == ServiceStatus::FinishedFailed {
                assert(self@.services[i as int].status == ServiceStatus::FinishedFailed);
                return true;
            }
            i += 1;
        }
        false
    }

    /// Publishes `ev` on the bus. The result is false when the bus is gone.
    pub fn send_ev(&mut self, ev: Event) -> (taken: bool)
        ensures
            final(self)@ == old(self)@,
            final(self).connector_id() == old(self).connector_id(),
    {
        self.bus.send_event(ev)
    }

    /// Takes the events that are waiting, without blocking.
    pub fn get_events(&mut self) -> (events: Vec<Event>)
        ensures
            final(self)@ == old(self)@,
            final(self).connector_id() == old(self).connector_id(),
    {
        self.bus.try_get_events()
    }

    /// Waits for one event, then takes what else is waiting, up to `quantity`
    /// events in all.
    pub fn get_n_events_blocking(&mut self, quantity: usize) -> (events: Vec<Event>)
        ensures
            events@.len() <= quantity,
            final(self)@ == old(self)@,
            final(self).connector_id() == old(self).connector_id(),
    {
        self.bus.get_n_events_blocking(quantity)
    }

    /// Another connector on the same bus, for a component that publishes on
    /// behalf of a service.
    pub fn connector(&self) -> (connector: BusConnector<Event>)
        ensures
            connector.sender_id() == self.connector_id(),
    {
        self.bus.clone()
    }
}

} // verus!
