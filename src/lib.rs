pub mod decimal;
pub mod state;
pub mod laws;
pub mod panels;
