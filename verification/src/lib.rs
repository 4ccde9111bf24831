//! A personal portfolio site: its content, the markup of its one page, and
//! the decisions of the server that delivers it.

pub mod content;
pub mod escape;
pub mod markup;
pub mod reading;
pub mod render;
pub mod router;
pub mod transport;
