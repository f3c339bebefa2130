pub mod error;
pub mod events;
pub mod html;
pub mod message;
pub mod response;
pub mod room;
pub mod store;
pub mod text_map;
pub mod value;
pub mod wire;
