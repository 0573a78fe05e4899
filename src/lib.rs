pub mod config;
pub mod get;
pub mod retrieval;
pub mod run;
pub mod text;
