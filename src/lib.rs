pub mod error;
pub mod fighter;
pub mod html;
pub mod page;
pub mod profile;
pub mod resolve;
pub mod text;
