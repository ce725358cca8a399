//! Random passwords over a configurable character set.
//!
//! A [`PasswordGeneratorSettings`] record says which character classes take
//! part and how long the password is; a [`PasswordGenerator`] draws that many
//! characters from the resulting set.

pub mod charset;
pub mod draw;
pub mod generator;
pub mod settings;

pub use generator::PasswordGenerator;
pub use settings::{PasswordGeneratorSettings, SpecialCharacterUsage};
