//! A terminal job-control supervisor: launches interactive children while
//! keeping the controlling terminal's foreground process group with the
//! supervising process, plus the small helpers around it.

pub mod environment;
pub mod interrupt;
pub mod supervisor;
pub mod terminal;
