pub mod archive;
pub mod context;
pub mod manager;
pub mod publisher;
pub mod resource;
pub mod resources;
pub mod routes;
pub mod template;
pub mod utils;
