//! What each call does, in terms of its arguments, of the records before it, and of
//! the records, transfers and events after it.
pub mod agreements;
pub mod closing;
pub mod loading;
pub mod pairs;
pub mod reading;
pub mod settling;
pub mod setup;
