//! Declarative command, option-choice and modal models for a chat platform's
//! interaction API.
//!
//! A model is declared as plain data (fields, variants and their attribute
//! entries). The library validates the declaration, builds the schema that is
//! registered with the platform, and parses received interaction data back into
//! typed field values.
//!
//! - [`naming`], [`attribute`], [`channel`]: validated names and descriptions,
//!   allow-listed attribute entries, word-list attributes.
//! - [`command`], [`model`], [`value`]: command model declarations, field
//!   classification, value coercion and option-list parsing.
//! - [`subcommand`]: subcommand enums and dispatch on the first option.
//! - [`schema`], [`localization`]: schema derivation and localization
//!   dictionaries.
//! - [`choice`]: option choices with an inferred value kind.
//! - [`modal`]: modal forms.
//! - [`error`]: declaration and parse errors, with their messages.
mod chars;

pub mod attribute;
pub mod channel;
pub mod choice;
pub mod command;
pub mod error;
pub mod localization;
pub mod modal;
pub mod model;
pub mod naming;
pub mod schema;
pub mod subcommand;
pub mod value;
