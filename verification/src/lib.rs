pub mod isolate;
pub mod laws;
pub mod registry;
pub mod state;
