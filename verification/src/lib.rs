pub mod text;
pub mod number;
pub mod parse;
pub mod error;
pub mod model;
pub mod api;
pub mod workspace;
pub mod command;
pub mod logging;
pub mod update;
