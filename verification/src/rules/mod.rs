pub mod anti_patterns;
pub mod idiom;
pub mod patterns;
pub mod registry;
