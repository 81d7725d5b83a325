pub mod config;
pub mod i18n;
pub mod models;
pub mod orgs;
pub mod roadmap_page;
pub mod services;
pub mod strmap;
pub mod text;
pub mod theme;
