use feta::{Decision, DecisionBuilder, FetaError, Reason, Value};

#[test]
fn test_reason_display() {
    let tests = vec![
        (Reason::Unknown, "unknown"),
        (Reason::Disabled, "disabled"),
        (Reason::Static, "static"),
        (Reason::Split, "split"),
        (Reason::Match, "match"),
        (Reason::MatchSplit, "match_split"),
        (Reason::Error, "error"),
    ];

    for (input, expected) in tests {
        let actual = input.to_string();
        assert_eq!(actual, expected);
    }
}

#[test]
fn test_decision_builder_success() {
    let actual = DecisionBuilder::new()
        .hash(1)
        .variant("var")
        .value(true.into())
        .audience("aud")
        .success(Reason::Match);
    let expected = Decision {
        hash: 1,
        variant: "var".to_string(),
        reason: Reason::Match,
        value: true.into(),
        audience: Some("aud".to_string()),
        error: None,
    };
    assert_eq!(actual, expected);
}

#[test]
fn test_decision_builder_disabled() {
    let actual = DecisionBuilder::new()
        .hash(1)
        .variant("var")
        .value(true.into())
        .disabled();
    let expected = Decision {
        hash: 1,
        variant: "var".to_string(),
        reason: Reason::Disabled,
        value: true.into(),
        audience: None,
        error: None,
    };
    assert_eq!(actual, expected);
}

#[test]
fn test_decision_builder_error() {
    let err = FetaError::Request(String::new());
    let actual = DecisionBuilder::new()
        .hash(1)
        .variant("var")
        .value(true.into())
        .error(err.clone());
    let expected = Decision {
        hash: 1,
        variant: "var".to_string(),
        reason: Reason::Error,
        value: true.into(),
        audience: None,
        error: Some(err),
    };
    assert_eq!(actual, expected);
}

#[test]
fn test_decision_builder_default() {
    let actual = DecisionBuilder::default()
        .hash(1)
        .variant("var")
        .value(true.into())
        .audience("aud")
        .success(Reason::Match);

    let expected = Decision {
        hash: 1,
        variant: "var".to_string(),
        reason: Reason::Match,
        value: true.into(),
        audience: Some("aud".to_string()),
        error: None,
    };
    assert_eq!(actual, expected);
}

#[test]
fn fresh_builder_builds_an_empty_decision() {
    let actual = DecisionBuilder::new().success(Reason::Unknown);
    let expected = Decision {
        hash: 0,
        variant: String::new(),
        reason: Reason::Unknown,
        value: Value::Null,
        audience: None,
        error: None,
    };
    assert_eq!(actual, expected);
}

#[test]
fn error_text_names_its_kind() {
    assert_eq!(
        FetaError::Configuration("bad".to_string()).to_string(),
        "Configuration error: bad"
    );
    assert_eq!(FetaError::Request("x".to_string()).to_string(), "Request error: x");
    assert_eq!(FetaError::Targeting("y".to_string()).to_string(), "Targeting error: y");
}
