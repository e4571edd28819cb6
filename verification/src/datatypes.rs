//! Recipes and their parts.

/// cooking equipment
pub mod equipment;

/// ingredients and their quantities
pub mod ingredient;

/// steps of a recipe
pub mod step;



/// recipes
pub mod recipe;
