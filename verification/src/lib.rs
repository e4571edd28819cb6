//! Core library of the cookbook: recipes, their steps, ingredients and
//! equipment, measurement units, the shared recipe store behind the web
//! interface, and the state machine that drives the terminal interface.

/// exact fractions used for every measured quantity
pub mod rational;

/// string helpers: ordering, decimal notation, editing
pub mod text;

/// measurement units and their abbreviations
pub mod units;

/// recipes, steps, ingredients and equipment
pub mod datatypes;

/// the recipe store shared by the workers of the web interface
pub mod store;

/// the decisions of the web interface: forms, routes, page contents
pub mod web;

/// the page that shows a recipe
pub mod viewer;


/// the terminal interface
pub mod tui;

/// the answer to the prompt that offers to create the cookbook's repository
pub mod repo_prompt;
