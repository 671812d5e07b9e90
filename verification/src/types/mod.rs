pub mod diagnosis;
pub mod result;
