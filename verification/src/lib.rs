//! Core logic of a terminal front end for a remote compile service.
//!
//! The crate models the data returned by the service, the JSON shapes it is
//! carried in, the per-panel scroll and focus state of the terminal display,
//! and the decisions of the event loop that ties them together.  Everything
//! here is plain state-transition and parsing logic; the surrounding process
//! does the actual network, filesystem and terminal work and hands plain
//! values in and out.

pub mod compiler_explorer;
pub mod json;
pub mod session;
pub mod tui;
