//! Message lookup by key for one active locale, with named arguments.
//!
//! The builder that gathers the arguments of a lookup and the choice of the
//! locale settings are verified; the message catalog itself is the
//! `fluent-templates` loader, reached through a few trusted calls.
mod builder;
mod catalog;
mod config;
mod laws;

pub use builder::{new, request_of, I18nBuilder, LookupPlan, Request};
pub use catalog::{get, get_plan, Catalog};
pub use config::{dir_of, error_text, locale_of, settings, ConfigError, Settings};
pub use laws::{
    filled, law_args_is_build_of_fresh, law_build_hands_every_argument,
    law_build_without_args_is_get, law_later_value_wins,
};
