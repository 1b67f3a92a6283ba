//! Client-side logic for the power profiles service reachable over the
//! system bus: the data model of its interface, the command set, the
//! rendering of each command's output and the session that decides, for one
//! command, which remote calls to make and what to print.

pub mod error;
pub mod profile;

pub use error::PpdError;
pub use profile::{Action, ActiveHold, PowerProfile, Profile};
pub mod args;
pub mod render;

pub use args::{Args, Commands};
pub mod session;

pub use session::{Next, Reply, Request, Session, Step};
