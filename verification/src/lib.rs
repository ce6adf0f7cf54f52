//! A musical-time scheduler: a clock that maps beats and bars at a tempo to
//! moments on a time line, and a scheduler that hands every event to each
//! registered backend at the event's moment.
//!
//! A [`clock::Clock`] begins a [`time::Timeline`] when it is made and lays
//! its beats out on it. A [`scheduler::Scheduler`] that reads the same time
//! line takes an [`event::Event`] and the moment of its beat, and gives each
//! of its [`backends::Backend`]s a copy when the moment has come.
//!
//! Every function that depends on the current time comes twice: once reading
//! the time line itself, and once, with `_when` in its name or as
//! `Scheduler::dispatch`, taking the moment as an argument.

pub mod backends;
pub mod clock;
pub mod continuity;
pub mod event;
pub mod scheduler;
pub mod time;
