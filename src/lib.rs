//! Recipe extraction: turns the text of a recipe page into a structured
//! record whose freeform labels are linked to reference tables.
pub mod json;
pub mod picture;
pub mod pipeline;
pub mod prompt;
pub mod recipe;
pub mod resolve;
