pub mod backend;
pub mod dispatch;
pub mod errors;
pub mod profile;
pub mod registry;
pub mod settings;
pub mod text;
