pub mod manager;
pub mod parent;
pub mod routes;
