//! A status-bar block that shows an on/off state as an icon, learns that state
//! from a probe command, and flips it through one of two commands on a click.
//!
//! Running commands is left to the caller: the library decides which command
//! to run and what its outcome means, and keeps the icon in step with the state.

pub mod widget;
pub mod input;
pub mod ident;
pub mod toggle;
