pub mod compute;
pub mod connect;
pub mod console_redirect;
pub mod credentials;
pub mod errors;
pub mod ip;
pub mod messages;
pub mod pool;
pub mod session_id;
mod text;
pub mod waiters;
