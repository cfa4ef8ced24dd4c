//! Print-dispatch subsystem for a point-of-sale desktop application.
//!
//! The library turns an in-memory invoice document into a temporary artifact
//! on disk, invokes a platform print mechanism against it, and reclaims the
//! artifact afterwards. The pieces are:
//!
//! - [`artifact`]: derives collision-free artifact paths and models the
//!   store's removal policy;
//! - [`strategy`]: the three interchangeable print strategies, each planned
//!   as an external command and interpreted from the process report;
//! - [`outcome`]: the caller-visible result and the error taxonomy;
//! - [`request`]: the incoming print request and its validity check;
//! - [`dispatcher`]: the state machine that drives one print request from
//!   validation through printing to cleanup.
//!
//! All file-system, process and timer work is performed by the embedding
//! application, which runs the dispatcher as an event loop: the dispatcher
//! emits an [`dispatcher::Action`], the application performs it and feeds the
//! observed [`dispatcher::Event`] back in.

pub mod artifact;
pub mod dispatcher;
pub mod outcome;
pub mod request;
pub mod strategy;
