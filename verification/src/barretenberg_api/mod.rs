pub mod buffer;
pub mod lemmas;
pub mod models;
pub mod traits;
