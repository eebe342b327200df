use crate::builder::{pairs_map, request_of, I18nBuilder, LookupPlan, Request};
use crate::config::ConfigError;
use fluent_templates::fluent_bundle::FluentValue;
use fluent_templates::{ArcLoader, Loader, LoaderError};
use std::borrow::Cow;
use std::collections::HashMap;
use unic_langid::LanguageIdentifier;
use vstd::prelude::*;

verus! {

#[verifier::external_type_specification]
#[verifier::external_body]
pub struct ExArcLoader(ArcLoader);

#[verifier::external_type_specification]
#[verifier::external_body]
pub struct ExLanguageIdentifier(LanguageIdentifier);

/// The text that a loader gives for a request under a locale. The lookup
/// reads nothing but the loader's bundles and fallbacks, the locale, the key
/// and the arguments, so one loader answers one request alike every time.
pub uninterp spec fn loader_text(loader: ArcLoader, locale: LanguageIdentifier, req: Request) -> Seq<char>;

/// Relies on `Loader::lookup` of `fluent_templates::ArcLoader`: the message
/// `key` of `lang`, or of the loader's fallback locale, with no arguments.
/// What it holds depends on the files the loader was built from.
#[verifier::external_body]
fn loader_lookup(loader: &ArcLoader, lang: &LanguageIdentifier, key: &str) -> (r: String)
    ensures
        r@ == loader_text(*loader, *lang, Request::Plain(key@)),
{
    loader.lookup(lang, key)
}

/// Relies on `Loader::lookup_with_args` of `fluent_templates::ArcLoader`: the
/// message `key` of `lang` with each pair of `args` as a named argument.
/// The map handed over keeps the later of two pairs with one name, and the
/// lookup does not depend on the order of the pairs.
#[verifier::external_body]
fn loader_lookup_with_args(
    loader: &ArcLoader,
    lang: &LanguageIdentifier,
    key: &str,
    args: &Vec<(String, String)>,
) -> (r: String)
    ensures
        r@ == loader_text(*loader, *lang, Request::WithArgs(key@, pairs_map(args@))),
{
    let map: HashMap<Cow<'static, str>, FluentValue> = args
        .iter()
        .map(|(k, v)| (Cow::from(k.clone()), FluentValue::from(v.clone())))
        .collect();
    loader.lookup_with_args(lang, key, &map)
}

/// The message catalog of the active locale.
pub struct Catalog {
    loader: ArcLoader,
    locale: LanguageIdentifier,
}

impl Catalog {
    /// The text that this catalog gives for a request.
    pub closed spec fn text(&self, req: Request) -> Seq<char> {
        loader_text(self.loader, self.locale, req)
    }

    /// The catalog of `locale`, from the outcome of loading its files:
    /// `BuildingLoader` exactly when loading failed.
    pub fn from_loaded(loaded: Result<ArcLoader, LoaderError>, locale: LanguageIdentifier) -> (r:
        Result<Catalog, ConfigError>)
        ensures
            r is Ok <==> loaded is Ok,
            r matches Err(e) ==> e == ConfigError::BuildingLoader,
            r matches Ok(c) ==> loaded matches Ok(l) && forall|q: Request|
                #[trigger] c.text(q) == loader_text(l, locale, q),
    {
        match loaded {
            Ok(loader) => Ok(Catalog { loader, locale }),
            Err(_) => Err(ConfigError::BuildingLoader),
        }
    }

    /// Carries out a lookup: a plain one, or one with its arguments.
    pub fn perform(&self, plan: &LookupPlan) -> (r: String)
        ensures
            r@ == self.text(plan@),
    {
        match plan {
            LookupPlan::Plain { key } => loader_lookup(&self.loader, &self.locale, key.as_str()),
            LookupPlan::WithArgs { key, args } => loader_lookup_with_args(
                &self.loader,
                &self.locale,
                key.as_str(),
                args,
            ),
        }
    }
}

/// The message `key` of the active locale, with no arguments.
pub fn get(catalog: &Catalog, key: &str) -> (r: String)
    ensures
        r@ == catalog.text(Request::Plain(key@)),
{
    catalog.perform(&get_plan(key))
}

/// The lookup that `get` hands to the catalog: the key as given, and no
/// arguments.
pub fn get_plan(key: &str) -> (r: LookupPlan)
    ensures
        r.wf(),
        r@ == Request::Plain(key@),
{
    LookupPlan::Plain { key: key.to_owned() }
}

impl I18nBuilder {
    /// The message `key` (not necessarily the builder's own) with the
    /// arguments set so far.
    pub fn args(&self, catalog: &Catalog, key: &str) -> (r: String)
        requires
            self.wf(),
        ensures
            r@ == catalog.text(request_of(key@, self@.1)),
    {
        catalog.perform(&self.plan(key))
    }

    /// The builder's own message with the arguments set so far.
    pub fn build(&self, catalog: &Catalog) -> (r: String)
        requires
            self.wf(),
        ensures
            r@ == catalog.text(request_of(self@.0, self@.1)),
    {
        catalog.perform(&self.build_plan())
    }
}

} // verus!
