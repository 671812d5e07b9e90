pub mod diagnosis;
pub mod parsers;
