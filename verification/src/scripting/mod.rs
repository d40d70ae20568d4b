pub mod functions;
pub mod constants;
