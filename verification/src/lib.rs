pub mod capture;
pub mod protocol;
pub mod reader;
pub mod registry;
pub mod session;
pub mod text;
