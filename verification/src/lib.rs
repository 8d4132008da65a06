//! Verified validation rules for semantic unit specs and semantic-family artifacts.

pub mod text;
pub mod unit_ref;
pub mod model;
pub mod errors;
pub mod rust_syntax;
pub mod validator;
pub mod graph;
pub mod molecule;
pub mod typescript;
pub mod seam;
pub mod family;
