use ngrok::errors::Error;
use ngrok::options::{
    clean_options, get_flag, get_pairs, get_text, get_texts, has_opt, OptVal, RawOpt,
};

fn opt(key: &str, value: OptVal) -> RawOpt {
    RawOpt {
        key: key.to_string(),
        value,
    }
}

fn text(key: &str, value: &str) -> RawOpt {
    opt(key, OptVal::Text(value.to_string()))
}

#[test]
fn cleaning_drops_null_valued_keys() {
    let opts = vec![
        text("metadata", "m"),
        opt("domain", OptVal::Null),
        text("proto", "http"),
    ];
    let cleaned = clean_options(&opts);
    assert_eq!(cleaned.len(), 2);
    assert!(has_opt(&cleaned, "metadata"));
    assert!(!has_opt(&cleaned, "domain"));
    assert!(has_opt(&cleaned, "proto"));
}

#[test]
fn cleaning_rewrites_dotted_keys() {
    let opts = vec![text("oauth.provider", "google")];
    let cleaned = clean_options(&opts);
    assert!(has_opt(&cleaned, "oauth_provider"));
    assert!(!has_opt(&cleaned, "oauth.provider"));
    assert_eq!(
        get_text(&cleaned, "oauth_provider"),
        Ok(Some("google".to_string()))
    );
}

#[test]
fn get_text_rejects_wrong_shapes() {
    let opts = vec![opt("metadata", OptVal::Flag(true))];
    assert_eq!(
        get_text(&opts, "metadata"),
        Err(Error::InvalidOptionValue {
            key: "metadata".to_string()
        })
    );
}

#[test]
fn get_flag_reads_booleans() {
    let opts = vec![opt("compression", OptVal::Flag(true))];
    assert_eq!(get_flag(&opts, "compression"), Ok(Some(true)));
    assert_eq!(get_flag(&opts, "absent"), Ok(None));
    assert!(get_flag(&vec![text("compression", "yes")], "compression").is_err());
}

#[test]
fn scalars_coerce_to_one_element_lists() {
    let opts = vec![text("allow_cidr", "10.0.0.0/8")];
    assert_eq!(
        get_texts(&opts, "allow_cidr"),
        Ok(Some(vec!["10.0.0.0/8".to_string()]))
    );
}

#[test]
fn get_pairs_splits_at_the_first_colon() {
    let opts = vec![opt(
        "basic_auth",
        OptVal::TextList(vec!["user:pass".to_string(), "u2:p:2".to_string()]),
    )];
    assert_eq!(
        get_pairs(&opts, "basic_auth"),
        Ok(Some(vec![
            ("user".to_string(), "pass".to_string()),
            ("u2".to_string(), "p:2".to_string()),
        ]))
    );
}

#[test]
fn get_pairs_rejects_elements_without_the_separator() {
    let opts = vec![text("basic_auth", "nopair")];
    assert_eq!(
        get_pairs(&opts, "basic_auth"),
        Err(Error::InvalidOptionValue {
            key: "basic_auth".to_string()
        })
    );
}

#[test]
fn null_reads_as_absent() {
    let opts = vec![opt("metadata", OptVal::Null)];
    assert_eq!(get_text(&opts, "metadata"), Ok(None));
    assert!(!has_opt(&opts, "metadata"));
}

#[test]
fn first_value_wins_for_repeated_keys() {
    let opts = vec![text("metadata", "first"), text("metadata", "second")];
    assert_eq!(get_text(&opts, "metadata"), Ok(Some("first".to_string())));
}
