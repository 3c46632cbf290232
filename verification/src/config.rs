//! The validated configuration of a run.

use crate::urls::{parse_url, parsed_url};
use vstd::prelude::*;

verus! {

/// Why a configuration was turned down.
#[derive(Debug, PartialEq, Eq)]
pub enum ConfigError {
    /// The list of services is empty.
    NoServices,
    /// The monitoring URL is not an absolute URL.
    MalformedUrl(url::ParseError),
}

/// The fault of a configuration, if it has one, from its list of services
/// and from what the URL parser made of its monitoring URL. An empty list
/// is the first fault looked for; after it, the parser's error.
pub fn config_fault(
    services: &Vec<String>,
    parsed: Result<String, url::ParseError>,
) -> (fault: Option<ConfigError>)
    ensures
        fault == (if services@.len() == 0 {
            Some(ConfigError::NoServices)
        } else {
            match parsed {
                Ok(_) => None,
                Err(error) => Some(ConfigError::MalformedUrl(error)),
            }
        }),
{
    if services.len() == 0 {
        return Some(ConfigError::NoServices);
    }
    match parsed {
        Ok(_) => None,
        Err(error) => Some(ConfigError::MalformedUrl(error)),
    }
}

/// The services to check, in the order in which they are reported, and the
/// URL of the monitoring endpoint. A value of this type has been validated:
/// it names at least one service, and its URL parses.
#[derive(Debug)]
pub struct MonitorConfig {
    services: Vec<String>,
    monitor_url: String,
}

impl MonitorConfig {
    #[verifier::type_invariant]
    spec fn valid(self) -> bool {
        self.services@.len() > 0 && parsed_url(self.monitor_url@) is Some
    }

    /// The configured services, in order.
    pub closed spec fn service_names(self) -> Seq<String> {
        self.services@
    }

    /// The text of the monitoring URL, as it was configured.
    pub closed spec fn url_text(self) -> Seq<char> {
        self.monitor_url@
    }

    /// Validates a configuration. It is turned down when it names no
    /// service, and else when its URL does not parse; the first fault that
    /// is found is the one reported.
    pub fn new(
        services: Vec<String>,
        monitor_url: String,
    ) -> (made: Result<MonitorConfig, ConfigError>)
        ensures
            match made {
                Ok(config) => {
                    &&& services@.len() > 0
                    &&& parsed_url(monitor_url@) is Some
                    &&& config.service_names() == services@
                    &&& config.url_text() == monitor_url@
                },
                Err(ConfigError::NoServices) => services@.len() == 0,
                Err(ConfigError::MalformedUrl(_)) => services@.len() > 0 && parsed_url(
                    monitor_url@,
                ) is None,
            },
    {
        match config_fault(&services, parse_url(monitor_url.as_str())) {
            None => Ok(MonitorConfig { services, monitor_url }),
            Some(fault) => Err(fault),
        }
    }

    /// The configured services, in order. There is at least one.
    pub fn services(&self) -> (services: &Vec<String>)
        ensures
            services@ == self.service_names(),
            services@.len() > 0,
    {
        proof {
            use_type_invariant(self);
        }
        &self.services
    }

    /// The monitoring URL as it was configured. It parses.
    pub fn monitor_url(&self) -> (url: &str)
        ensures
            url@ == self.url_text(),
            parsed_url(url@) is Some,
    {
        proof {
            use_type_invariant(self);
        }
        self.monitor_url.as_str()
    }
}

} // verus!
