pub mod manager;
pub mod routes;
