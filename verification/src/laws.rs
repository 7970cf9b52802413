//! What holds of the escrow as a whole: of every state, of every change, and of
//! calls that follow one another.
pub mod batch;
pub mod calls;
pub mod custody;
pub mod funding;
pub mod history;
pub mod lifecycle;
pub mod money;
pub mod records;
pub mod reputation;
pub mod settings;
