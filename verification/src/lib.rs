//! Decision logic of a VEML7700 ambient-light exporter for Prometheus.
//!
//! The exporter samples the sensor once for every scrape request and
//! publishes the reading before the scrape is answered. A sample that fails
//! is logged and costs nothing else: the gauges keep the last good reading
//! and the next request is served as usual.
//!
//! This crate holds the decisions and proves what they guarantee. It opens
//! no device and binds no socket. [`run::Run`] and [`get::Get`] name one
//! [`protocol::Action`] at a time; the program around them carries it out and
//! hands back a [`protocol::Event`]:
//!
//! ```text
//! let mut run = Run::new(config);
//! let mut action = run.action();
//! loop {
//!     let event = perform(action);
//!     action = run.run(event).expect("the event answers the action");
//! }
//! ```
//!
//! [`guarantees`] states what holds over whole runs: which reading the gauges
//! hold, how requests are numbered, that they never overlap, and that nothing
//! is served unless all of startup succeeded.

pub mod config;
pub mod failure;
pub mod get;
pub mod guarantees;
pub mod protocol;
pub mod run;
pub mod sensor;
