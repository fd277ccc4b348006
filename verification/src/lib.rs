pub mod text;
pub mod steam;
pub mod power;
pub mod model;
pub mod rules;
pub mod session;
pub mod laws;
