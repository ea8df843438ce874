pub mod addr;
pub mod content_type;
pub mod dispatch;
pub mod file;
pub mod http;
pub mod ip_port;
pub mod path;
pub mod proxy;
pub mod text;
pub mod utils;
