pub mod bookmark_parser;
pub mod json;
