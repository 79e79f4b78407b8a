pub mod value;
pub mod style;
pub mod shape;
pub mod response;
pub mod scope;
pub mod driver;
pub mod layout;
