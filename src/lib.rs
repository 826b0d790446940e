//! A guide for writing structured change records ("commits") and for turning the
//! history of such records into a release changelog.
//!
//! The interactive parts are state machines: they take what the user did and
//! answer with what to do next, so that the program around them only performs
//! prompts, runs the spell checker and talks to the repository.
pub mod builder;
pub mod changelog;
pub mod collector;
pub mod date;
pub mod links;
pub mod menu;
pub mod record;
pub mod text;
