use fluent_templates::LoaderError;
use unic_langid::{LanguageIdentifier, LanguageIdentifierError};
use vstd::prelude::*;

verus! {

#[verifier::external_type_specification]
#[verifier::external_body]
pub struct ExLanguageIdentifierError(LanguageIdentifierError);

#[verifier::external_type_specification]
#[verifier::external_body]
pub struct ExLoaderError(LoaderError);

/// Whether the text is a well-formed language identifier.
pub uninterp spec fn langid_parses(s: Seq<char>) -> bool;

/// The identifier that a well-formed text parses to.
pub uninterp spec fn parsed_langid(s: Seq<char>) -> LanguageIdentifier;

/// Relies on `LanguageIdentifier`'s `FromStr` (`LanguageIdentifier::from_bytes`):
/// it succeeds exactly on well-formed identifiers, and the identifier depends
/// on the text alone.
#[verifier::external_body]
fn parse_langid(s: &str) -> (r: Result<LanguageIdentifier, LanguageIdentifierError>)
    ensures
        r is Ok <==> langid_parses(s@),
        r matches Ok(l) ==> l == parsed_langid(s@),
{
    s.parse::<LanguageIdentifier>()
}

/// The two ways in which setting up the catalog fails.
#[derive(Debug, Clone, Copy, PartialEq, Eq, Structural)]
pub enum ConfigError {
    /// The locale setting is not a language identifier.
    ParsingLanguage,
    /// The locale files could not be loaded.
    BuildingLoader,
}

/// The diagnostic of each setup failure.
pub open spec fn error_text(e: ConfigError) -> Seq<char> {
    match e {
        ConfigError::ParsingLanguage => "parsing language failed"@,
        ConfigError::BuildingLoader => "unable to build loader"@,
    }
}

impl ConfigError {
    /// The diagnostic that a failed setup stops with.
    pub fn message(&self) -> (r: String)
        ensures
            r@ == error_text(*self),
    {
        match self {
            ConfigError::ParsingLanguage => "parsing language failed".to_owned(),
            ConfigError::BuildingLoader => "unable to build loader".to_owned(),
        }
    }
}

/// The locale used when none is configured.
pub open spec fn default_locale() -> Seq<char> {
    "en-US"@
}

/// The directory of the locale files when none is configured.
pub open spec fn default_dir() -> Seq<char> {
    "./assets/locales/"@
}

/// The locale to use: the configured one, or the default when it is unset
/// or empty.
pub open spec fn locale_of(var: Option<String>) -> Seq<char> {
    match var {
        Some(v) => if v@.len() > 0 {
            v@
        } else {
            default_locale()
        },
        None => default_locale(),
    }
}

/// The directory of the locale files: the configured one, or the default
/// when it is unset.
pub open spec fn dir_of(var: Option<String>) -> Seq<char> {
    match var {
        Some(v) => v@,
        None => default_dir(),
    }
}

fn locale_setting(var: Option<String>) -> (r: String)
    ensures
        r@ == locale_of(var),
{
    match var {
        Some(v) => if v.as_str().is_empty() {
            "en-US".to_owned()
        } else {
            v
        },
        None => "en-US".to_owned(),
    }
}

fn dir_setting(var: Option<String>) -> (r: String)
    ensures
        r@ == dir_of(var),
{
    match var {
        Some(v) => v,
        None => "./assets/locales/".to_owned(),
    }
}

/// Where the catalog comes from: a locale, and the directory of the
/// locale files.
pub struct Settings {
    pub locale: LanguageIdentifier,
    pub dir: String,
}

/// The settings that the configured values (each `None` when unset) give:
/// the locale parsed from `locale_of(locale_var)` ("en-US" when unset or
/// empty) and the directory `dir_of(dir_var)`.
/// Fails with `ParsingLanguage` exactly when the chosen locale is not a
/// language identifier.
pub fn settings(locale_var: Option<String>, dir_var: Option<String>) -> (r: Result<
    Settings,
    ConfigError,
>)
    ensures
        r is Ok <==> langid_parses(locale_of(locale_var)),
        r matches Err(e) ==> e == ConfigError::ParsingLanguage,
        r matches Ok(s) ==> s.locale == parsed_langid(locale_of(locale_var)),
        r matches Ok(s) ==> s.dir@ == dir_of(dir_var),
{
    let name = locale_setting(locale_var);
    match parse_langid(name.as_str()) {
        Ok(locale) => Ok(Settings { locale, dir: dir_setting(dir_var) }),
        Err(_) => Err(ConfigError::ParsingLanguage),
    }
}

} // verus!
