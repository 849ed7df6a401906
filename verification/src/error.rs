pub mod api_error;
pub mod data_error;
