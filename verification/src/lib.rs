pub mod config;
pub mod filter;
pub mod i18n;
pub mod laws;
pub mod menu;
pub mod output;
pub mod paths;
pub mod text;

pub use i18n::{tr, Lang, Msg};
