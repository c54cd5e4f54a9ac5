use envcase::casefold::Folding;
use envcase::lookup::{lower_var, uncased_var, upper_var, LookupError};
use envcase::vars::{lower_vars, uncased_vars, upper_vars};

fn pair(k: &str, v: &str) -> (String, String) {
    (k.to_string(), v.to_string())
}

#[test]
fn uncased() {
    let env = vec![pair("HELLO", "world")];
    assert_eq!(uncased_var(Folding::Ascii, &env, "Hello"), Ok("world".to_string()));
}

#[test]
fn low() {
    let env = vec![pair("HELLO", "world")];
    assert_eq!(lower_var(Folding::Ascii, &env, "hello"), Ok("world".to_string()));
}

#[test]
fn up() {
    let env = vec![pair("hello", "world")];
    assert_eq!(upper_var(Folding::Ascii, &env, "HELLO"), Ok("world".to_string()));
}

#[test]
fn unicode() {
    let env = vec![pair("Maße", "42")];
    assert_eq!(uncased_var(Folding::Unicode, &env, "mAßE"), Ok("42".to_string()));
    assert_eq!(lower_var(Folding::Unicode, &env, "maße"), Ok("42".to_string()));
    assert_eq!(upper_var(Folding::Unicode, &env, "MASSE"), Ok("42".to_string()));
}

#[test]
fn missing_key_not_found() {
    let env = vec![pair("HELLO", "world")];
    assert_eq!(uncased_var(Folding::Ascii, &env, "MISSING"), Err(LookupError::NotFound));
    assert_eq!(lower_var(Folding::Ascii, &env, "missing"), Err(LookupError::NotFound));
    assert_eq!(upper_var(Folding::Ascii, &env, "MISSING"), Err(LookupError::NotFound));
    assert_eq!(uncased_var(Folding::Unicode, &env, "MISSING"), Err(LookupError::NotFound));
    assert_eq!(lower_var(Folding::Unicode, &env, "missing"), Err(LookupError::NotFound));
    assert_eq!(upper_var(Folding::Unicode, &env, "MISSING"), Err(LookupError::NotFound));
}

#[test]
fn empty_snapshot_not_found() {
    let env: Vec<(String, String)> = Vec::new();
    assert_eq!(uncased_var(Folding::Ascii, &env, "ANY"), Err(LookupError::NotFound));
    assert_eq!(lower_var(Folding::Unicode, &env, "any"), Err(LookupError::NotFound));
    assert_eq!(upper_var(Folding::Ascii, &env, "ANY"), Err(LookupError::NotFound));
}

#[test]
fn lower_lookup_requires_lowercased_query() {
    // The lowercased lookup compares exactly: a query that is not
    // already lowercase matches no lowercased key.
    let env = vec![pair("HELLO", "world")];
    assert_eq!(lower_var(Folding::Ascii, &env, "HELLO"), Err(LookupError::NotFound));
    assert_eq!(upper_var(Folding::Ascii, &env, "hello"), Err(LookupError::NotFound));
}

#[test]
fn first_match_wins() {
    let env = vec![pair("Key", "first"), pair("KEY", "second"), pair("other", "third")];
    assert_eq!(uncased_var(Folding::Ascii, &env, "key"), Ok("first".to_string()));
    assert_eq!(lower_var(Folding::Ascii, &env, "key"), Ok("first".to_string()));
    assert_eq!(upper_var(Folding::Ascii, &env, "KEY"), Ok("first".to_string()));
}

#[test]
fn ascii_folding_leaves_other_characters() {
    let env = vec![pair("Path_2/x!", "v")];
    let mut low = lower_vars(Folding::Ascii, env.clone());
    assert_eq!(low.next(), Some(pair("path_2/x!", "v")));
    assert_eq!(low.next(), None);
    let mut upp = upper_vars(Folding::Ascii, env);
    assert_eq!(upp.next(), Some(pair("PATH_2/X!", "v")));
    assert_eq!(upp.next(), None);
}

#[test]
fn enumerations_preserve_count_and_values() {
    let env = vec![pair("One", "1"), pair("TWO", "2"), pair("three", "3")];

    let mut unc = uncased_vars(Folding::Ascii, env.clone());
    let mut unc_pairs: Vec<(String, String)> = Vec::new();
    while let Some((k, v)) = unc.next() {
        unc_pairs.push((k.as_str().to_string(), v));
    }
    // Keys pass through untransformed, values unchanged, order kept.
    assert_eq!(unc_pairs, env);

    let mut low = lower_vars(Folding::Ascii, env.clone());
    let mut low_pairs: Vec<(String, String)> = Vec::new();
    while let Some(p) = low.next() {
        low_pairs.push(p);
    }
    assert_eq!(low_pairs, vec![pair("one", "1"), pair("two", "2"), pair("three", "3")]);

    let mut upp = upper_vars(Folding::Ascii, env.clone());
    let mut upp_pairs: Vec<(String, String)> = Vec::new();
    while let Some(p) = upp.next() {
        upp_pairs.push(p);
    }
    assert_eq!(upp_pairs, vec![pair("ONE", "1"), pair("TWO", "2"), pair("THREE", "3")]);

    assert_eq!(unc_pairs.len(), env.len());
    assert_eq!(low_pairs.len(), env.len());
    assert_eq!(upp_pairs.len(), env.len());
}

#[test]
fn unicode_enumeration_transforms_keys() {
    let env = vec![pair("Maße", "42")];
    let mut low = lower_vars(Folding::Unicode, env.clone());
    assert_eq!(low.next(), Some(pair("maße", "42")));
    assert_eq!(low.next(), None);
    // Unicode uppercase of the sharp s expands to two characters.
    let mut upp = upper_vars(Folding::Unicode, env);
    assert_eq!(upp.next(), Some(pair("MASSE", "42")));
    assert_eq!(upp.next(), None);
}

#[test]
fn uncased_key_wrapper_compares_without_case() {
    let env = vec![pair("HELLO", "world")];
    let mut unc = uncased_vars(Folding::Ascii, env);
    let (key, value) = unc.next().unwrap();
    assert_eq!(key.as_str(), "HELLO");
    assert!(key.eq_str("hello"));
    assert!(key.eq_str("Hello"));
    assert!(!key.eq_str("HELP"));
    assert!(!key.eq_str("HELLO "));
    assert_eq!(value, "world".to_string());
    assert!(unc.next().is_none());

    let env2 = vec![pair("Straße", "x")];
    let mut unc2 = uncased_vars(Folding::Unicode, env2);
    let (key2, _) = unc2.next().unwrap();
    assert!(key2.eq_str("STRASSE"));
    assert!(!key2.eq_str("STRASS"));
}

#[test]
fn repeated_calls_agree() {
    let env = vec![pair("Alpha", "a"), pair("BETA", "b")];
    assert_eq!(
        uncased_var(Folding::Ascii, &env, "alpha"),
        uncased_var(Folding::Ascii, &env, "alpha"),
    );
    assert_eq!(
        lower_var(Folding::Unicode, &env, "beta"),
        lower_var(Folding::Unicode, &env, "beta"),
    );
    assert_eq!(
        upper_var(Folding::Ascii, &env, "BETA"),
        upper_var(Folding::Ascii, &env, "BETA"),
    );

    let mut first = lower_vars(Folding::Ascii, env.clone());
    let mut second = lower_vars(Folding::Ascii, env);
    loop {
        let a = first.next();
        let b = second.next();
        assert_eq!(a, b);
        if a.is_none() {
            break;
        }
    }
}

#[test]
fn uncased_lookup_is_ascii_insensitive_per_character() {
    let env = vec![pair("MiXeD_case-9", "ok")];
    assert_eq!(uncased_var(Folding::Ascii, &env, "mIxEd_CASE-9"), Ok("ok".to_string()));
    assert_eq!(uncased_var(Folding::Ascii, &env, "mIxEd_CASE-8"), Err(LookupError::NotFound));
}
