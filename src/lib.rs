pub mod app;
pub mod configuration;
pub mod lifecycle;
pub mod pipeline;
pub mod routes;
pub mod text;
