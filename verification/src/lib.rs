pub mod text;
pub mod models;
pub mod commands;
pub mod db;
