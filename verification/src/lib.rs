//! Positioning of display monitors within the virtual desktop.
//!
//! The library holds everything that is decided when displays are listed or
//! moved: how the command line is read, which question is put to the display
//! system next, what is changed in a mode before it is written back, and what
//! is reported for each request. It never talks to the display system itself.
//! A driver performs each [`system::Query`] and hands back the
//! [`system::Reply`].

pub mod apply;
pub mod command;
pub mod device;
pub mod listing;
pub mod mode;
pub mod report;
pub mod system;
pub mod text;
