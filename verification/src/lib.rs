//! Resource control for the unified (v2) cgroup hierarchy.
//!
//! Given the resource limits of a container, this library says which
//! control files of the container's cgroup node are to be written, with what
//! text and in what order, and what to make of a write that fails. It makes
//! no write itself: the caller writes, and tells the library how it went.
//!
//! - [`resources`] holds the limits, every field of them optional.
//! - [`cpu`], [`cpuset`], [`io`], [`memory`], [`hugetlb`] and [`pids`] are
//!   the controllers: each turns its own slice of the limits into writes.
//!   [`controller`] chooses among them by [`controller_type`].
//! - [`manager`] lays out the steps for one node: switching the controllers
//!   on in the parent, then the writes of each controller in a fixed order.
//! - [`session`] carries a plan out step by step and ends it when a write
//!   fails that must not fail.
//! - [`field`] and [`host`] state what holds of every plan: a field that is
//!   absent is never written, a field that is present always is, and doing it
//!   all twice changes nothing.

pub mod controller;
pub mod controller_type;
pub mod cpu;
pub mod cpuset;
pub mod field;
pub mod host;
pub mod hugetlb;
pub mod io;
pub mod limit;
pub mod manager;
pub mod memory;
pub mod pids;
pub mod resources;
pub mod session;
pub mod step;
pub mod text;
pub mod write;
