//! Aggregate health of the service, derived from the state of the
//! collaborators it cannot work without.

use crate::status::STATUS_OK;
use crate::status::STATUS_SERVICE_UNAVAILABLE;
use vstd::prelude::*;

verus! {

/// Overall verdict on the application.
#[derive(Clone, Copy, Debug, PartialEq, Eq, Structural)]
pub enum AppStatus {
    Healthy,
    Unhealthy,
}

/// State of a single collaborator.
#[derive(Clone, Copy, Debug, PartialEq, Eq, Structural)]
pub enum ServiceStatus {
    Up,
    Down,
}

/// The collaborators whose state is probed.
#[derive(Clone, Copy, Debug, PartialEq, Eq, Structural)]
pub struct Services {
    pub db: ServiceStatus,
}

/// A health report: the verdict together with the probes it rests on.
#[derive(Clone, Copy, Debug, PartialEq, Eq, Structural)]
pub struct Health {
    pub status: AppStatus,
    pub services: Services,
}

impl ServiceStatus {
    /// The state of a collaborator whose liveness probe was answered
    /// (`true`) or not (`false`).
    pub fn from_probe(answered: bool) -> (status: ServiceStatus)
        ensures
            status == (if answered { ServiceStatus::Up } else { ServiceStatus::Down }),
    {
        if answered {
            ServiceStatus::Up
        } else {
            ServiceStatus::Down
        }
    }
}

impl Services {
    /// The verdict that follows from the probes: healthy exactly when
    /// every critical service is up.
    pub open spec fn spec_status(&self) -> AppStatus {
        if self.db == ServiceStatus::Up {
            AppStatus::Healthy
        } else {
            AppStatus::Unhealthy
        }
    }

    /// Collects the probe results.
    pub fn now(db_answered: bool) -> (services: Services)
        ensures
            services.db == (if db_answered { ServiceStatus::Up } else { ServiceStatus::Down }),
    {
        Services { db: ServiceStatus::from_probe(db_answered) }
    }

    /// Derives the overall verdict.
    #[verifier::when_used_as_spec(spec_status)]
    pub fn status(&self) -> (status: AppStatus)
        ensures
            status == self.spec_status(),
    {
        let critical_services: [ServiceStatus; 1] = [self.db];
        let mut healthy = true;
        let mut i: usize = 0;
        while i < critical_services.len()
            invariant
                i <= critical_services.len(),
                critical_services.len() == 1,
                critical_services[0] == self.db,
                healthy <==> forall|j: int|
                    0 <= j < i ==> critical_services[j] == ServiceStatus::Up,
            decreases critical_services.len() - i,
        {
            if critical_services[i] != ServiceStatus::Up {
                healthy = false;
            }
            i = i + 1;
        }
        if healthy {
            AppStatus::Healthy
        } else {
            AppStatus::Unhealthy
        }
    }

    /// Wraps the probes in a report that carries their verdict.
    pub fn into_health(self) -> (health: Health)
        ensures
            health.services == self,
            health.status == self.spec_status(),
    {
        Health { status: self.status(), services: self }
    }
}

impl Health {
    /// The status code the report is answered with.
    pub open spec fn spec_status_code(&self) -> u16 {
        if self.status == AppStatus::Healthy {
            STATUS_OK
        } else {
            STATUS_SERVICE_UNAVAILABLE
        }
    }

    /// 200 for a healthy application, 503 otherwise.
    #[verifier::when_used_as_spec(spec_status_code)]
    pub fn status_code(&self) -> (code: u16)
        ensures
            code == self.spec_status_code(),
    {
        match self.status {
            AppStatus::Healthy => STATUS_OK,
            AppStatus::Unhealthy => STATUS_SERVICE_UNAVAILABLE,
        }
    }
}

} // verus!
