pub mod api_error;
pub mod api_success;
