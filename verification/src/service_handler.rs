//! The supervisor's record of one service.

use crate::formats::{name_views, Service, ServiceName, ServiceStatus, ServiceView};
use std::time::Instant;
use vstd::prelude::*;

verus! {

/// The mutable state of one service, next to its declaration.
#[derive(Debug)]
pub struct ServiceHandler {
    /// The declaration of the service.
    pub service: Service,
    pub status: ServiceStatus,
    /// The process identifier, once the process has been seen alive.
    pub pid: Option<i32>,
    /// Failed starts since the service last reached `Started`.
    pub restart_attempts: u32,
    /// When the service was asked to terminate.
    pub shutting_down_start: Option<Instant>,
}

/// A handler as the state machine sees it. Of the instant at which termination
/// was requested only its presence is kept.
pub struct HandlerView {
    pub service: ServiceView,
    pub status: ServiceStatus,
    pub pid: Option<i32>,
    pub restart_attempts: nat,
    pub termination_started: bool,
}

impl HandlerView {
    /// The record of a service that has not been launched yet.
    pub open spec fn fresh(service: ServiceView) -> HandlerView {
        HandlerView {
            service,
            status: ServiceStatus::Initial,
            pid: None,
            restart_attempts: 0,
            termination_started: false,
        }
    }

    /// Whether more starts have failed than the declaration allows.
    pub open spec fn attempts_are_over(self) -> bool {
        self.restart_attempts > self.service.restart.attempts
    }

    /// The record once termination has been requested.
    pub open spec fn terminating(self) -> HandlerView {
        HandlerView { status: ServiceStatus::InKilling, termination_started: true, ..self }
    }
}

impl View for ServiceHandler {
    type V = HandlerView;

    open spec fn view(&self) -> HandlerView {
        HandlerView {
            service: self.service@,
            status: self.status,
            pid: self.pid,
            restart_attempts: self.restart_attempts as nat,
            termination_started: self.shutting_down_start.is_some(),
        }
    }
}

impl From<Service> for ServiceHandler {
    fn from(service: Service) -> (handler: ServiceHandler) {
        ServiceHandler::new(service)
    }
}

impl vstd::std_specs::convert::FromSpecImpl<Service> for ServiceHandler {
    open spec fn obeys_from_spec() -> bool {
        true
    }

    open spec fn from_spec(service: Service) -> ServiceHandler {
        ServiceHandler {
            service,
            status: ServiceStatus::Initial,
            pid: None,
            restart_attempts: 0,
            shutting_down_start: None,
        }
    }
}

impl ServiceHandler {
    /// The record of a service that has not been launched yet.
    pub fn new(service: Service) -> (handler: ServiceHandler)
        ensures
            handler@ == HandlerView::fresh(service@),
            handler == (ServiceHandler {
                service,
                status: ServiceStatus::Initial,
                pid: None,
                restart_attempts: 0,
                shutting_down_start: None,
            }),
    {
        ServiceHandler {
            service,
            status: ServiceStatus::Initial,
            pid: None,
            restart_attempts: 0,
            shutting_down_start: None,
        }
    }

    pub fn service(&self) -> (service: &Service)
        ensures
            service@ == self@.service,
    {
        &self.service
    }

    pub fn name(&self) -> (name: &ServiceName)
        ensures
            name@ == self@.service.name,
    {
        &self.service.name
    }

    /// The services that must be up before this one is launched.
    pub fn start_after(&self) -> (names: &Vec<ServiceName>)
        ensures
            name_views(names@) == self@.service.dependencies,
    {
        &self.service.dependencies
    }

    pub fn pid(&self) -> (pid: Option<i32>)
        ensures
            pid == self@.pid,
    {
        self.pid
    }

    pub fn status(&self) -> (status: ServiceStatus)
        ensures
            status == self@.status,
    {
        self.status
    }

    pub fn is_initial(&self) -> (r: bool)
        ensures
            r == (self@.status == ServiceStatus::Initial),
    {
        self.status == ServiceStatus::Initial
    }

    pub fn is_starting(&self) -> (r: bool)
        ensures
            r == (self@.status == ServiceStatus::Starting),
    {
        self.status == ServiceStatus::Starting
    }

    pub fn is_started(&self) -> (r: bool)
        ensures
            r == (self@.status == ServiceStatus::Started),
    {
        self.status == ServiceStatus::Started
    }

    pub fn is_running(&self) -> (r: bool)
        ensures
            r == (self@.status == ServiceStatus::Running),
    {
        self.status == ServiceStatus::Running
    }

    pub fn is_in_killing(&self) -> (r: bool)
        ensures
            r == (self@.status == ServiceStatus::InKilling),
    {
        self.status == ServiceStatus::InKilling
    }

    /// Records that the service has been asked to terminate, as of now.
    pub fn shutting_down_started(&mut self)
        ensures
            final(self)@ == old(self)@.terminating(),
    {
        self.shutting_down_start = Some(Instant::now());
        self.status = ServiceStatus::InKilling;
    }

    /// Whether more starts have failed than the declaration allows.
    pub fn restart_attempts_are_over(&self) -> (over: bool)
        ensures
            over == self@.attempts_are_over(),
    {
        self.restart_attempts > self.service.restart.attempts
    }
}

} // verus!
