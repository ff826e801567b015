pub mod component;
pub mod contref;
pub mod tls;
pub mod udp;
pub mod x64;
