//! Structural checks for a dotfiles repository: a small set of independent
//! rules over one observed state of the repository, each giving a uniform
//! result that can be rendered, counted and turned into an exit code.

pub mod document;
pub mod laws;
pub mod model;
pub mod report;
pub mod repository;
pub mod rules;
pub mod syntax;
pub mod text;
pub mod validator;
