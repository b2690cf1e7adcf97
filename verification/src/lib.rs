//! Background synchronisation for a fleet dashboard: a round-robin queue of
//! four fetch operations, the rules that derive what each fetch asks for, the
//! store that the results are written into, and the engine that takes the
//! three through one turn after the other. The requests themselves, the
//! pause between two turns and the lock on the store are the caller's.

pub mod app;
pub mod engine;
pub mod message_handler;
pub mod models;
pub mod operation_queue;
pub mod resolver;
pub mod spacetraders;
pub mod text;

pub use app::AppData;
