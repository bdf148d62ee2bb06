pub mod idle;
