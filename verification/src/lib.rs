//! A convenient structure to store and load settings.
//!
//! It is meant for items that are rarely read and stored, like command line
//! flags or the configuration of an application.
//!
//! `Settings` keeps every value as a string and reads it as the type that is
//! asked for when it is fetched. This allows settings to come in by several
//! ways, the command line among them. It is not meant for structured data:
//! store the location of such data as a setting, and load it yourself.
//!
//! Keys and values are written through `ToText`, and values are read through
//! `FromText`. Command line options are registered as `OptGroup` descriptors
//! and handed to the `getopts` parser when arguments are loaded.

pub mod decimal;
pub mod descriptor;
pub mod laws;
pub mod loading;
pub mod numbers;
pub mod parser;
pub mod settings;
pub mod text;

pub use crate::descriptor::{optopt, reqopt, OptGroup};
pub use crate::settings::{FetchError, Settings, PROGNAME};
pub use crate::text::{FromText, ToText};
