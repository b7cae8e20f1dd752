//! Decision logic for concurrent visual-regression runs.
//!
//! Each check task starts a browser-automation driver on a port of its own,
//! waits until the driver accepts connections, opens a session, navigates,
//! verifies the URL it landed on, captures a screenshot and terminates the
//! driver. This library holds the rules of that pipeline as state machines
//! (`poll`, `task`, `batch`), the address of a driver (`endpoint`) and the
//! pixel comparison of two pictures (`compare`). The caller performs the
//! actions the machines ask for and hands back what happened.

pub mod failure;
pub mod compare;
pub mod endpoint;
pub mod poll;
pub mod task;
pub mod batch;
