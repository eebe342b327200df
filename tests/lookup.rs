use fluent_templates::ArcLoader;
use i18n::{get_plan, new, settings, Catalog, ConfigError, LookupPlan};

fn pairs(plan: &LookupPlan) -> Vec<(String, String)> {
    match plan {
        LookupPlan::Plain { .. } => Vec::new(),
        LookupPlan::WithArgs { args, .. } => {
            let mut v = args.clone();
            v.sort();
            v
        }
    }
}

fn plan_key(plan: &LookupPlan) -> String {
    match plan {
        LookupPlan::Plain { key } => key.clone(),
        LookupPlan::WithArgs { key, .. } => key.clone(),
    }
}

#[test]
fn new_holds_key_and_no_arguments() {
    let b = new("greeting");
    assert_eq!(b.key(), "greeting");
    assert!(b.has_no_args());
    assert_eq!(b.arg("name"), None);
}

#[test]
fn set_args_adds_each_argument() {
    let b = new("greeting").set_args("user", "Alice").set_args("count", "3");
    assert!(!b.has_no_args());
    assert_eq!(b.arg("user"), Some("Alice".to_string()));
    assert_eq!(b.arg("count"), Some("3".to_string()));
    assert_eq!(b.arg("time"), None);
    assert_eq!(b.key(), "greeting");
}

#[test]
fn set_args_twice_keeps_later_value() {
    let b = new("key").set_args("n", "a").set_args("n", "b");
    assert_eq!(b.arg("n"), Some("b".to_string()));
    let plan = b.build_plan();
    assert_eq!(pairs(&plan), vec![("n".to_string(), "b".to_string())]);
}

#[test]
fn get_plan_is_plain_key() {
    let plan = get_plan("hello");
    assert!(matches!(&plan, LookupPlan::Plain { key } if key == "hello"));
}

#[test]
fn build_without_arguments_is_get() {
    let plan = new("welcome_message").build_plan();
    assert!(matches!(&plan, LookupPlan::Plain { key } if key == "welcome_message"));
    assert_eq!(plan_key(&plan), plan_key(&get_plan("welcome_message")));
}

#[test]
fn args_with_other_key_is_build_of_fresh_builder() {
    let b = new("user_info").set_args("user", "Carol").set_args("time", "morning");
    let via_args = b.plan("greeting");
    let fresh = new("greeting").set_args("user", "Carol").set_args("time", "morning");
    let via_build = fresh.build_plan();
    assert!(matches!(&via_args, LookupPlan::WithArgs { .. }));
    assert_eq!(plan_key(&via_args), "greeting");
    assert_eq!(plan_key(&via_args), plan_key(&via_build));
    assert_eq!(pairs(&via_args), pairs(&via_build));
}

#[test]
fn args_without_arguments_is_plain_lookup_of_other_key() {
    let plan = new("user_info").plan("greeting");
    assert!(matches!(&plan, LookupPlan::Plain { key } if key == "greeting"));
}

#[test]
fn build_hands_every_argument() {
    let plan = new("greeting").set_args("name", "Bob").set_args("place", "home").build_plan();
    assert_eq!(plan_key(&plan), "greeting");
    assert_eq!(
        pairs(&plan),
        vec![
            ("name".to_string(), "Bob".to_string()),
            ("place".to_string(), "home".to_string())
        ]
    );
}

#[test]
fn settings_default_when_unset() {
    let s = settings(None, None).unwrap();
    assert_eq!(s.locale.to_string(), "en-US");
    assert_eq!(s.dir, "./assets/locales/");
}

#[test]
fn settings_default_locale_when_empty() {
    let s = settings(Some(String::new()), Some("locales".to_string())).unwrap();
    assert_eq!(s.locale.to_string(), "en-US");
    assert_eq!(s.dir, "locales");
}

#[test]
fn settings_take_configured_locale() {
    let s = settings(Some("fr-FR".to_string()), None).unwrap();
    assert_eq!(s.locale.to_string(), "fr-FR");
    assert_eq!(s.dir, "./assets/locales/");
}

#[test]
fn settings_reject_unparsable_locale() {
    let r = settings(Some("@@ not a locale @@".to_string()), None);
    assert_eq!(r.err(), Some(ConfigError::ParsingLanguage));
}

#[test]
fn error_messages() {
    assert_eq!(ConfigError::ParsingLanguage.message(), "parsing language failed");
    assert_eq!(ConfigError::BuildingLoader.message(), "unable to build loader");
}

#[test]
fn catalog_fails_when_files_cannot_be_loaded() {
    let s = settings(None, Some("./no/such/locale/directory/".to_string())).unwrap();
    let loaded = ArcLoader::builder(&s.dir, s.locale.clone()).build();
    let r = Catalog::from_loaded(loaded, s.locale);
    assert_eq!(r.err(), Some(ConfigError::BuildingLoader));
}
