pub mod dataset;
pub mod distance;
pub mod edit_paths;
pub mod homoglyph;
pub mod popular;
pub mod scanner;
pub mod text;
