pub mod idle;
pub mod status;
