//! The vocabulary shared by every component: service declarations, the
//! lifecycle statuses and the events carried on the bus.
//!
//! Every executable type has a view that replaces strings and vectors by
//! sequences; the contracts of the crate are stated over those views.

use vstd::prelude::*;

verus! {

/// Services are identified by their name.
pub type ServiceName = String;

/// Where a service stands in its lifecycle.
#[derive(Clone, Copy, Debug, PartialEq, Eq, Structural)]
pub enum ServiceStatus {
    Initial,
    Starting,
    Started,
    Running,
    InKilling,
    Success,
    Failed,
    FinishedFailed,
    Finished,
}

impl ServiceStatus {
    /// A terminal status is one the scheduler never moves a service out of.
    pub open spec fn terminal(self) -> bool {
        self == ServiceStatus::Finished || self == ServiceStatus::FinishedFailed
    }

    pub fn is_terminal(&self) -> (r: bool)
        ensures
            r == self.terminal(),
    {
        match self {
            ServiceStatus::Finished | ServiceStatus::FinishedFailed => true,
            _ => false,
        }
    }
}

/// What to do with a service whose process has exited.
#[derive(Clone, Copy, Debug, PartialEq, Eq, Structural)]
pub enum RestartStrategy {
    Always,
    OnFailure,
    Never,
}

/// What the failure of a service means for the others.
#[derive(Clone, Copy, Debug, PartialEq, Eq, Structural)]
pub enum FailureStrategy {
    Shutdown,
    KillDependents,
    Ignore,
}

/// The signal that asks a service to terminate gracefully.
#[derive(Clone, Copy, Debug, PartialEq, Eq, Structural)]
pub enum TerminationSignal {
    TERM,
    HUP,
    INT,
    QUIT,
    KILL,
    USR1,
    USR2,
}

/// How the supervisor as a whole ended.
#[derive(Clone, Copy, Debug, PartialEq, Eq, Structural)]
pub enum ExitStatus {
    Successful,
    SomeServiceFailed,
}

/// Restart policy. `backoff_millis` is the base delay before a relaunch, in
/// milliseconds; `attempts` is the number of failed starts that are tolerated.
#[derive(Clone, Copy, Debug, PartialEq, Eq, Structural)]
pub struct Restart {
    pub strategy: RestartStrategy,
    pub backoff_millis: u64,
    pub attempts: u32,
}

/// Failure policy: who else is affected, and which exit codes count as success.
#[derive(Debug, PartialEq, Eq)]
pub struct Failure {
    pub strategy: FailureStrategy,
    pub successful_exit_code: Vec<i32>,
}

/// Termination policy. `wait_millis` is how long a service is given, in
/// milliseconds, between the termination signal and the forced kill.
#[derive(Debug, PartialEq, Eq)]
pub struct Termination {
    pub signal: TerminationSignal,
    pub wait_millis: u64,
    pub die_if_failed: Vec<ServiceName>,
}

/// Configuration of the health probe. The supervisor only carries it.
#[derive(Debug, PartialEq, Eq)]
pub struct Healthiness {
    pub http_endpoint: Option<String>,
    pub file_path: Option<String>,
}

/// The declaration of a service. It never changes once the supervisor runs.
#[derive(Debug, PartialEq, Eq)]
pub struct Service {
    pub name: ServiceName,
    pub command: String,
    pub dependencies: Vec<ServiceName>,
    pub healthiness: Healthiness,
    pub restart: Restart,
    pub failure: Failure,
    pub termination: Termination,
}

/// A failure policy, with the exit codes as a sequence.
pub struct FailureView {
    pub strategy: FailureStrategy,
    pub successful_exit_code: Seq<i32>,
}

/// A termination policy, with the names as sequences of characters.
pub struct TerminationView {
    pub signal: TerminationSignal,
    pub wait_millis: u64,
    pub die_if_failed: Seq<Seq<char>>,
}

/// The configuration of a health probe, with its texts as sequences of
/// characters.
pub struct HealthinessView {
    pub http_endpoint: Option<Seq<char>>,
    pub file_path: Option<Seq<char>>,
}

/// The declaration of a service, as the contracts speak of it.
pub struct ServiceView {
    pub name: Seq<char>,
    pub command: Seq<char>,
    pub dependencies: Seq<Seq<char>>,
    pub healthiness: HealthinessView,
    pub restart: Restart,
    pub failure: FailureView,
    pub termination: TerminationView,
}

/// The names in `names`, each as a sequence of characters.
pub open spec fn name_views(names: Seq<String>) -> Seq<Seq<char>> {
    names.map_values(|name: String| name@)
}

/// The text in `text`, if there is one, as a sequence of characters.
pub open spec fn optional_text_view(text: Option<String>) -> Option<Seq<char>> {
    match text {
        Some(t) => Some(t@),
        None => None,
    }
}

impl View for Failure {
    type V = FailureView;

    open spec fn view(&self) -> FailureView {
        FailureView {
            strategy: self.strategy,
            successful_exit_code: self.successful_exit_code@,
        }
    }
}

impl View for Termination {
    type V = TerminationView;

    open spec fn view(&self) -> TerminationView {
        TerminationView {
            signal: self.signal,
            wait_millis: self.wait_millis,
            die_if_failed: name_views(self.die_if_failed@),
        }
    }
}

impl View for Healthiness {
    type V = HealthinessView;

    open spec fn view(&self) -> HealthinessView {
        HealthinessView {
            http_endpoint: optional_text_view(self.http_endpoint),
            file_path: optional_text_view(self.file_path),
        }
    }
}

impl View for Service {
    type V = ServiceView;

    open spec fn view(&self) -> ServiceView {
        ServiceView {
            name: self.name@,
            command: self.command@,
            dependencies: name_views(self.dependencies@),
            healthiness: self.healthiness@,
            restart: self.restart,
            failure: self.failure@,
            termination: self.termination@,
        }
    }
}

impl ServiceView {
    /// The declaration that `Service::from_name` builds: no command, no
    /// dependencies, never restarted, failure ignored, exit code 0 the only
    /// success, `TERM` with five seconds of grace.
    pub open spec fn named(name: Seq<char>) -> ServiceView {
        ServiceView {
            name,
            command: Seq::empty(),
            dependencies: Seq::empty(),
            healthiness: HealthinessView { http_endpoint: None, file_path: None },
            restart: Restart { strategy: RestartStrategy::Never, backoff_millis: 0, attempts: 10 },
            failure: FailureView {
                strategy: FailureStrategy::Ignore,
                successful_exit_code: seq![0i32],
            },
            termination: TerminationView {
                signal: TerminationSignal::TERM,
                wait_millis: 5000,
                die_if_failed: Seq::empty(),
            },
        }
    }

    /// Whether a process that exits with `code` has succeeded.
    pub open spec fn accepts_exit_code(self, code: i32) -> bool {
        self.failure.successful_exit_code.contains(code)
    }
}

/// Whether `name` occurs in `names`.
pub fn contains_name(names: &Vec<ServiceName>, name: &ServiceName) -> (found: bool)
    ensures
        found == name_views(names@).contains(name@),
{
    let mut i: usize = 0;
    while i < names.len()
        invariant
            i <= names.len(),
            forall|j: int| 0 <= j < i ==> #[trigger] name_views(names@)[j] != name@,
        decreases names.len() - i,
    {
        if names[i] == *name {
            assert(name_views(names@)[i as int] == name@);
            return true;
        }
        i += 1;
    }
    false
}

/// Whether `code` occurs in `codes`.
pub fn contains_code(codes: &Vec<i32>, code: i32) -> (found: bool)
    ensures
        found == codes@.contains(code),
{
    let mut i: usize = 0;
    while i < codes.len()
        invariant
            i <= codes.len(),
            forall|j: int| 0 <= j < i ==> codes@[j] != code,
        decreases codes.len() - i,
    {
        if codes[i] == code {
            return true;
        }
        i += 1;
    }
    false
}

fn clone_names(names: &Vec<ServiceName>) -> (copy: Vec<ServiceName>)
    ensures
        copy@ == names@,
{
    let mut copy: Vec<ServiceName> = Vec::new();
    let mut i: usize = 0;
    while i < names.len()
        invariant
            i <= names.len(),
            copy@ == names@.take(i as int),
        decreases names.len() - i,
    {
        copy.push(names[i].clone());
        i += 1;
    }
    copy
}

fn clone_codes(codes: &Vec<i32>) -> (copy: Vec<i32>)
    ensures
        copy@ == codes@,
{
    let mut copy: Vec<i32> = Vec::new();
    let mut i: usize = 0;
    while i < codes.len()
        invariant
            i <= codes.len(),
            copy@ == codes@.take(i as int),
        decreases codes.len() - i,
    {
        copy.push(codes[i]);
        i += 1;
    }
    copy
}

fn clone_optional_text(text: &Option<String>) -> (copy: Option<String>)
    ensures
        copy == *text,
{
    match text {
        Some(t) => Some(t.clone()),
        None => None,
    }
}

impl Clone for Failure {
    fn clone(&self) -> (copy: Self)
        ensures
            copy@ == self@,
    {
        Failure {
            strategy: self.strategy,
            successful_exit_code: clone_codes(&self.successful_exit_code),
        }
    }
}

impl Clone for Termination {
    fn clone(&self) -> (copy: Self)
        ensures
            copy@ == self@,
    {
        Termination {
            signal: self.signal,
            wait_millis: self.wait_millis,
            die_if_failed: clone_names(&self.die_if_failed),
        }
    }
}

impl Clone for Healthiness {
    fn clone(&self) -> (copy: Self)
        ensures
            copy@ == self@,
    {
        Healthiness {
            http_endpoint: clone_optional_text(&self.http_endpoint),
            file_path: clone_optional_text(&self.file_path),
        }
    }
}

impl Clone for Service {
    fn clone(&self) -> (copy: Self)
        ensures
            copy@ == self@,
    {
        Service {
            name: self.name.clone(),
            command: self.command.clone(),
            dependencies: clone_names(&self.dependencies),
            healthiness: self.healthiness.clone(),
            restart: self.restart,
            failure: self.failure.clone(),
            termination: self.termination.clone(),
        }
    }
}

impl Service {
    /// A declaration with the given name and every other field at its default.
    pub fn from_name(name: &str) -> (service: Service)
        ensures
            service@ == ServiceView::named(name@),
    {
        let mut codes: Vec<i32> = Vec::new();
        codes.push(0);
        let service = Service {
            name: name.to_owned(),
            command: String::new(),
            dependencies: Vec::new(),
            healthiness: Healthiness { http_endpoint: None, file_path: None },
            restart: Restart { strategy: RestartStrategy::Never, backoff_millis: 0, attempts: 10 },
            failure: Failure { strategy: FailureStrategy::Ignore, successful_exit_code: codes },
            termination: Termination {
                signal: TerminationSignal::TERM,
                wait_millis: 5000,
                die_if_failed: Vec::new(),
            },
        };
        assert(service@.termination.die_if_failed == Seq::<Seq<char>>::empty());
        service
    }
}

/// What travels on the bus.
#[derive(Debug, PartialEq, Eq)]
pub enum Event {
    /// The process of the service is alive under this process identifier.
    PidChanged(ServiceName, i32),
    /// The process of the service has exited with this code.
    ServiceExited(ServiceName, i32),
    /// Request to kill the service without further grace.
    ForceKill(ServiceName),
    /// Request to terminate the service gracefully.
    Kill(ServiceName),
    /// Request to launch the service.
    Run(ServiceName),
    /// Request to move the service to the given status.
    StatusChanged(ServiceName, ServiceStatus),
    /// The whole supervisor is shutting down.
    ShuttingDownInitiated,
    /// A component announces that it has left, and whether it succeeded.
    Exited(String, bool),
}

/// An event, with the names as sequences of characters.
pub enum EventView {
    PidChanged(Seq<char>, i32),
    ServiceExited(Seq<char>, i32),
    ForceKill(Seq<char>),
    Kill(Seq<char>),
    Run(Seq<char>),
    StatusChanged(Seq<char>, ServiceStatus),
    ShuttingDownInitiated,
    Exited(Seq<char>, bool),
}

impl EventView {
    /// The service that the event is addressed to, if it is addressed to one.
    pub open spec fn service_name(self) -> Option<Seq<char>> {
        match self {
            EventView::PidChanged(name, _) => Some(name),
            EventView::ServiceExited(name, _) => Some(name),
            EventView::ForceKill(name) => Some(name),
            EventView::Kill(name) => Some(name),
            EventView::Run(name) => Some(name),
            EventView::StatusChanged(name, _) => Some(name),
            EventView::ShuttingDownInitiated => None,
            EventView::Exited(_, _) => None,
        }
    }
}

impl View for Event {
    type V = EventView;

    open spec fn view(&self) -> EventView {
        match *self {
            Event::PidChanged(name, pid) => EventView::PidChanged(name@, pid),
            Event::ServiceExited(name, code) => EventView::ServiceExited(name@, code),
            Event::ForceKill(name) => EventView::ForceKill(name@),
            Event::Kill(name) => EventView::Kill(name@),
            Event::Run(name) => EventView::Run(name@),
            Event::StatusChanged(name, status) => EventView::StatusChanged(name@, status),
            Event::ShuttingDownInitiated => EventView::ShuttingDownInitiated,
            Event::Exited(name, success) => EventView::Exited(name@, success),
        }
    }
}

/// The events in `events`, each by its view.
pub open spec fn event_views(events: Seq<Event>) -> Seq<EventView> {
    events.map_values(|event: Event| event@)
}

impl Clone for Event {
    fn clone(&self) -> (copy: Self)
        ensures
            copy@ == self@,
    {
        match self {
            Event::PidChanged(name, pid) => Event::PidChanged(name.clone(), *pid),
            Event::ServiceExited(name, code) => Event::ServiceExited(name.clone(), *code),
            Event::ForceKill(name) => Event::ForceKill(name.clone()),
            Event::Kill(name) => Event::Kill(name.clone()),
            Event::Run(name) => Event::Run(name.clone()),
            Event::StatusChanged(name, status) => Event::StatusChanged(name.clone(), *status),
            Event::ShuttingDownInitiated => Event::ShuttingDownInitiated,
            Event::Exited(name, success) => Event::Exited(name.clone(), *success),
        }
    }
}

impl Event {
    pub fn new_pid_changed(service_name: &ServiceName, pid: i32) -> (event: Event)
        ensures
            event@ == EventView::PidChanged(service_name@, pid),
    {
        Event::PidChanged(service_name.clone(), pid)
    }

    pub fn new_service_exited(service_name: &ServiceName, exit_code: i32) -> (event: Event)
        ensures
            event@ == EventView::ServiceExited(service_name@, exit_code),
    {
        Event::ServiceExited(service_name.clone(), exit_code)
    }

    pub fn new_status_changed(service_name: &ServiceName, status: ServiceStatus) -> (event: Event)
        ensures
            event@ == EventView::StatusChanged(service_name@, status),
    {
        Event::StatusChanged(service_name.clone(), status)
    }

    pub fn new_force_kill(service_name: &ServiceName) -> (event: Event)
        ensures
            event@ == EventView::ForceKill(service_name@),
    {
        Event::ForceKill(service_name.clone())
    }

    /// The announcement that the component `component` has left successfully.
    pub fn new_exit_success(component: &str) -> (event: Event)
        ensures
            event@ == EventView::Exited(component@, true),
    {
        Event::Exited(component.to_owned(), true)
    }

    /// The service that the event is addressed to, if it is addressed to one.
    pub fn service_name(&self) -> (name: Option<&ServiceName>)
        ensures
            match name {
                Some(n) => self@.service_name() == Some(n@),
                None => self@.service_name().is_none(),
            },
    {
        match self {
            Event::PidChanged(name, _) => Some(name),
            Event::ServiceExited(name, _) => Some(name),
            Event::ForceKill(name) => Some(name),
            Event::Kill(name) => Some(name),
            Event::Run(name) => Some(name),
            Event::StatusChanged(name, _) => Some(name),
            Event::ShuttingDownInitiated => None,
            Event::Exited(_, _) => None,
        }
    }
}

} // verus!
