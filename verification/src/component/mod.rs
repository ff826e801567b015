//! Host-side resources: handles, what they cost, and the table that holds them.

pub mod debug;
pub mod erase;
pub mod error;
pub mod history;
pub mod ordered;
pub mod resource;
pub mod resource_table;
pub mod resources;
pub mod table_laws;
pub mod table_view;
