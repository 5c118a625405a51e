//! Classical object-oriented design patterns, each in a module of its own.
//!
//! Every operation that reports something returns the text it reports, each
//! line closed by a line feed, so that the text of a composed operation is the
//! concatenation of the texts of its parts.

pub mod adapter;
pub mod command;
pub mod composite;
pub mod decorator;
pub mod facade;
pub mod factory_abstracted;
pub mod factory_method;
pub mod iterator;
pub mod observer;
pub mod observer_pull;
pub mod singleton;
pub mod state;
pub mod strategy;
pub mod template_method;
pub mod text;
