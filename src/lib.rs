//! Project registry and screen controller of the Beamline project manager.
//!
//! The library parses the settings document and project documents, builds the
//! catalog of recent projects, turns the raw fields of the "New Project" form
//! into a project, and drives the screen state machine.
pub mod document;
pub mod decimal;
pub mod elements;
pub mod state;
pub mod controller;
pub mod lemmas;
