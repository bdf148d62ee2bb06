pub mod discord;
pub mod youtube;
