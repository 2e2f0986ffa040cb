pub mod human;
pub mod json;
