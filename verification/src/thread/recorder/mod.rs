pub mod summary_extractor;
