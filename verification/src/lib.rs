//! Health reporting for services under a system service manager.
//!
//! The crate holds the two decision procedures of a health-reporting agent
//! and leaves every side effect to its caller:
//!
//! * [`checker`] turns what the service manager answered about one unit into
//!   a [`ServiceFinding`], and [`status`] folds the findings of a run into
//!   the one status text that is reported.
//! * [`reporter`] drives the delivery of that text to a monitoring endpoint:
//!   when to try, how long to back off, and what each answer of the server
//!   means. [`protocol`] states what holds of whole delivery runs.
//! * [`config`] validates the configuration of a run, and [`urls`] holds
//!   the calls into the `url` crate, which parses the monitoring URL and
//!   builds the request URL.
//!
//! A caller asks the manager, sleeps, and sends the requests; the functions
//! here say what to do next and are proved to meet their contracts.

pub mod checker;
pub mod config;
pub mod finding;
pub mod protocol;
pub mod reporter;
pub mod status;
pub mod urls;

pub use finding::{classify, Finding, ServiceFinding, UnitState};
pub use status::{aggregate, append_finding, status_text, HEALTHY_STATUS};
pub use checker::{check_service, BusError, CheckError, ManagerReply, NO_SUCH_UNIT};
pub use config::{config_fault, ConfigError, MonitorConfig};
pub use reporter::{
    judge, Attempt, Body, Exchange, ReportOutcome, Reporter, Response, Step, Transient, Verdict,
    DEADLINE_SECS,
};
