pub mod log_path;
pub mod job_id;
pub mod logging;
pub mod cli;
pub mod env_setup;
pub mod context;
