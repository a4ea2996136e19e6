//! Layered configuration resolution for service bootstrap.
//!
//! The library parses a JSON configuration document into a generic value
//! tree, merges a named service section into the document root with defined
//! precedence, extracts typed fields with path-tracked errors, and decides
//! the search order for `.env` override files.

mod env;
mod error;
mod log;
mod merge;
mod parse;
mod typed;
mod value;

pub use env::dir_step;
pub use env::lemma_secrets_short_circuit;
pub use env::lemma_walk_finds_first;
pub use env::lemma_walk_without_env_not_found;
pub use env::run_dir_probes;
pub use env::secrets_step;
pub use env::DirProbe;
pub use env::EnvRequest;
pub use env::EnvResolution;
pub use env::EnvResolver;
pub use env::SecretsProbe;

pub use error::ConfigError;
pub use error::FieldErrorKind;

pub use log::console_field;
pub use log::console_of_name;
pub use log::file_field;
pub use log::get_log_level_from_verbosity;
pub use log::level_field;
pub use log::level_of_name;
pub use log::log_config_failure;
pub use log::lower_chars;
pub use log::rotation_field;
pub use log::rotation_of_name;
pub use log::spec_level_filter;
pub use log::subscriber_field;
pub use log::LevelFilter;
pub use log::LogConfig;
pub use log::LogConsoleTarget;
pub use log::LogLevel;
pub use log::LogRotationInterval;

pub use merge::merge_section;
pub use merge::merged_document;
pub use merge::section_entries;

pub use parse::parse_document;
pub use parse::parsed_document;
pub use parse::resolve_document;

pub use typed::dec_value;
pub use typed::get_bool;
pub use typed::get_field;
pub use typed::get_text;
pub use typed::get_u64;
pub use typed::is_dec_digits;
pub use typed::parse_u64_lexeme;

pub use value::entries_of;
pub use value::find_entry;
pub use value::keyed;
pub use value::lookup;
pub use value::unique_keys;
pub use value::upsert;
pub use value::value_wf;
pub use value::ConfigValue;
