pub mod model;
pub mod table;
pub mod response;
mod clock;
pub mod handlers;
pub mod laws;
