//! Streaming conversion of one worksheet of an xlsx archive into CSV records.
//!
//! The worksheet and shared-string parts are read as XML event streams; the
//! decisions taken on each event are verified state machines.

pub mod error;
pub mod event;
pub mod xml;
pub mod index;
pub mod shared;
pub mod sheet;
pub mod record;
pub mod part;
