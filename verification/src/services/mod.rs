pub mod auth;
pub mod drive;
pub mod gate;
pub mod roadmap_gen;
