use std::collections::HashMap;

use feta::config;
use feta::{
    Context, Decision, DecisionBuilder, Feature, FeatureBuilder, FetaError, Outcome, Reason,
    RuleBuilder, Step, Value, ValueType,
};

/// A stand-in for the host's expression language: an expression names a
/// context attribute; an absent attribute reads as null; member access fails.
fn evaluate(expression: &str, ctx: &Context) -> Outcome {
    if expression.contains('.') {
        return Outcome::Failed(format!("invalid member access: {}", expression));
    }
    match ctx.attributes.as_ref().and_then(|a| a.get(expression)) {
        Some(Value::Boolean(b)) => Outcome::Boolean(*b),
        _ => Outcome::NotBoolean,
    }
}

/// Decides a feature for a context, evaluating expressions as asked.
fn run(feature: &Feature, ctx: &Context) -> Decision {
    let mut step = feature.decide(ctx);
    loop {
        match step {
            Step::Decided(d) => return d,
            Step::Evaluate(p) => {
                let expression = feature.rules()[p.rule].expression().clone().unwrap();
                step = feature.resume(p, evaluate(&expression, ctx));
            }
        }
    }
}

fn context_with(user_key: &str, attributes: Vec<(&str, Value)>) -> Context {
    let mut ctx = Context::new(user_key);
    ctx.attributes = Some(
        attributes
            .into_iter()
            .map(|(k, v)| (k.to_string(), v))
            .collect::<HashMap<String, Value>>(),
    );
    ctx
}

fn experiment() -> Feature {
    FeatureBuilder::new(ValueType::Integer)
        .name("exp")
        .enabled(true)
        .variant("a", 1.into())
        .variant("b", 2.into())
        .variant("c", 3.into())
        .variant("d", 4.into())
        .default_variant("a")
        .default_rule(
            RuleBuilder::new()
                .variant("a", 34)
                .variant("b", 33)
                .variant("c", 33)
                .build(Ok(()))
                .expect("rule should build"),
        )
        .audience_rule(
            RuleBuilder::new()
                .variant("d", 100)
                .audience("beta", "beta")
                .build(Ok(()))
                .expect("rule should build"),
        )
        .audience_rule(
            RuleBuilder::new()
                .variant("a", 1)
                .variant("d", 99)
                .audience("internal", "internal")
                .build(Ok(()))
                .expect("rule should build"),
        )
        .build()
        .expect("feature should build")
}

#[test]
fn test_feature_builder() {
    let rule = RuleBuilder::new()
        .variant("a", 50)
        .variant("b", 50)
        .build(Ok(()))
        .expect("rule should build");

    let _ = FeatureBuilder::new(ValueType::Integer)
        .name("feature")
        .enabled(true)
        .variant("a", 1.into())
        .variant("b", 2.into())
        .default_variant("a")
        .default_rule(rule)
        .build()
        .expect("feature should build");
}

#[test]
fn test_feature_builder_errors() {
    let tests = vec![
        FeatureBuilder::new(ValueType::Integer) // no name
            .variant("a", 1.into())
            .enabled(true)
            .default_variant("a")
            .default_rule(
                RuleBuilder::new()
                    .variant("a", 100)
                    .build(Ok(()))
                    .expect("rule should build"),
            ),
        FeatureBuilder::new(ValueType::Integer) // no default rule
            .name("f1")
            .enabled(true)
            .variant("a", 1.into())
            .default_variant("a")
            .audience_rule(
                RuleBuilder::new()
                    .variant("a", 100)
                    .build(Ok(()))
                    .expect("rule should build"),
            ),
        FeatureBuilder::new(ValueType::Integer) // default rule with expression
            .name("f1")
            .enabled(true)
            .variant("a", 1.into())
            .default_variant("a")
            .default_rule(
                RuleBuilder::new()
                    .variant("a", 100)
                    .audience("beta", "true")
                    .build(Ok(()))
                    .expect("rule should build"),
            ),
        FeatureBuilder::new(ValueType::Integer) // no default variant
            .name("f1")
            .enabled(true)
            .variant("a", 1.into())
            .default_rule(
                RuleBuilder::new()
                    .variant("a", 100)
                    .build(Ok(()))
                    .expect("rule should build"),
            ),
        FeatureBuilder::new(ValueType::Integer) // invalid default variant
            .name("f1")
            .enabled(true)
            .variant("a", 1.into())
            .default_variant("invalid")
            .default_rule(
                RuleBuilder::new()
                    .variant("a", 100)
                    .build(Ok(()))
                    .expect("rule should build"),
            ),
        FeatureBuilder::new(ValueType::Integer) // variant mismatch
            .name("f1")
            .enabled(true)
            .variant("a", 1.into())
            .default_variant("a")
            .default_rule(
                RuleBuilder::new()
                    .variant("b", 100)
                    .build(Ok(()))
                    .expect("rule should build"),
            ),
        FeatureBuilder::new(ValueType::Integer) // variant type mismatch
            .name("f1")
            .enabled(true)
            .variant("a", 1.into())
            .variant("b", Value::String("abc".to_string()))
            .default_variant("a")
            .default_rule(
                RuleBuilder::new()
                    .variant("a", 50)
                    .variant("b", 50)
                    .build(Ok(()))
                    .expect("rule should build"),
            ),
    ];

    for test in tests {
        let result = test.build();
        assert!(result.is_err())
    }
}

#[test]
fn test_feature_from_config() {
    let config = config::Feature {
        enabled: true,
        value_type: ValueType::Integer,
        variants: vec![("a".to_string(), 1.into()), ("b".to_string(), 2.into())],
        default_variant: "a".to_string(),
        default_rule: config::DefaultRule {
            bucketing: config::Bucketing::Distribution {
                distribution: vec![("a".to_string(), 50), ("b".to_string(), 50)],
            },
        },
        audience_rules: vec![config::AudienceRule {
            name: "beta".to_string(),
            expression: "beta".to_string(),
            bucketing: config::Bucketing::Variant {
                variant: "b".to_string(),
            },
        }],
    };

    let feature = Feature::from_config("exp", &config, &vec![Ok(())]);
    assert!(!feature.is_err())
}

#[test]
fn test_feature_evaluate() {
    // var=key: a=g, b=a, c=b
    let feature = experiment();

    let tests = vec![
        (
            Context::new("g"),
            DecisionBuilder::new()
                .value(1.into())
                .variant("a")
                .success(Reason::Split),
        ),
        (
            Context::new("a"),
            DecisionBuilder::new()
                .value(2.into())
                .variant("b")
                .success(Reason::Split),
        ),
        (
            Context::new("b"),
            DecisionBuilder::new()
                .value(3.into())
                .variant("c")
                .success(Reason::Split),
        ),
        (
            context_with("d", vec![("beta", Value::Boolean(true))]),
            DecisionBuilder::new()
                .value(4.into())
                .variant("d")
                .audience("beta")
                .success(Reason::Match),
        ),
        (
            context_with("d", vec![("internal", Value::Boolean(true))]),
            DecisionBuilder::new()
                .value(4.into())
                .variant("d")
                .audience("internal")
                .success(Reason::MatchSplit),
        ),
    ];

    for (context, expected) in tests {
        let actual = run(&feature, &context);
        let mut expected = expected.clone();
        expected.hash = actual.hash;
        assert_eq!(actual, expected)
    }
}

#[test]
fn split_regression_for_user_g() {
    let feature = FeatureBuilder::new(ValueType::Integer)
        .name("exp")
        .enabled(true)
        .variant("a", 1.into())
        .variant("b", 2.into())
        .variant("c", 3.into())
        .default_variant("b")
        .default_rule(
            RuleBuilder::new()
                .variant("a", 34)
                .variant("b", 33)
                .variant("c", 33)
                .build(Ok(()))
                .expect("rule should build"),
        )
        .build()
        .expect("feature should build");
    let actual = run(&feature, &Context::new("g"));
    assert_eq!(actual.variant, "a");
    assert_eq!(actual.value, Value::Integer(1));
    assert_eq!(actual.reason, Reason::Split);
    assert_eq!(actual.hash, feta::hash::calculate("exp", "g"));
    assert_eq!(actual.hash, feta::hash::calculate("", "expg"));
}

#[test]
fn disabled_feature_ignores_attributes() {
    let feature = FeatureBuilder::new(ValueType::Integer)
        .name("exp")
        .enabled(false)
        .variant("a", 1.into())
        .variant("d", 4.into())
        .default_variant("a")
        .default_rule(
            RuleBuilder::new()
                .variant("d", 100)
                .build(Ok(()))
                .expect("rule should build"),
        )
        .audience_rule(
            RuleBuilder::new()
                .variant("d", 100)
                .audience("beta", "beta")
                .build(Ok(()))
                .expect("rule should build"),
        )
        .build()
        .expect("feature should build");
    for ctx in [
        Context::new("g"),
        context_with("g", vec![("beta", Value::Boolean(true))]),
    ] {
        let step = feature.decide(&ctx);
        let expected = DecisionBuilder::new()
            .hash(feta::hash::calculate("exp", "g"))
            .variant("a")
            .value(Value::Integer(1))
            .disabled();
        assert_eq!(step, Step::Decided(expected));
    }
}

fn beta_feature(split: bool) -> Feature {
    let audience = if split {
        RuleBuilder::new().variant("on", 50).variant("on2", 50)
    } else {
        RuleBuilder::new().variant("on", 100)
    };
    FeatureBuilder::new(ValueType::Boolean)
        .name("beta-feature")
        .enabled(true)
        .variant("on", true.into())
        .variant("on2", true.into())
        .variant("off", false.into())
        .default_variant("off")
        .default_rule(
            RuleBuilder::new()
                .variant("off", 100)
                .build(Ok(()))
                .expect("rule should build"),
        )
        .audience_rule(
            audience
                .audience("beta", "beta")
                .build(Ok(()))
                .expect("rule should build"),
        )
        .build()
        .expect("feature should build")
}

#[test]
fn audience_rule_matches_or_falls_through() {
    let feature = beta_feature(false);
    let hit = run(&feature, &context_with("u", vec![("beta", Value::Boolean(true))]));
    assert_eq!(hit.reason, Reason::Match);
    assert_eq!(hit.variant, "on");
    assert_eq!(hit.audience, Some("beta".to_string()));

    let split = run(
        &beta_feature(true),
        &context_with("u", vec![("beta", Value::Boolean(true))]),
    );
    assert_eq!(split.reason, Reason::MatchSplit);

    for ctx in [
        Context::new("u"),
        context_with("u", vec![("beta", Value::Boolean(false))]),
        context_with("u", vec![("beta", Value::Integer(1))]),
    ] {
        let miss = run(&feature, &ctx);
        assert_eq!(miss.reason, Reason::Static);
        assert_eq!(miss.variant, "off");
        assert_eq!(miss.value, Value::Boolean(false));
        assert_eq!(miss.audience, None);
    }
}

#[test]
fn failed_evaluation_is_a_targeting_error_with_defaults() {
    let feature = FeatureBuilder::new(ValueType::Integer)
        .name("exp")
        .enabled(true)
        .variant("a", 1.into())
        .variant("b", 2.into())
        .default_variant("a")
        .default_rule(
            RuleBuilder::new()
                .variant("a", 100)
                .build(Ok(()))
                .expect("rule should build"),
        )
        .audience_rule(
            RuleBuilder::new()
                .variant("b", 100)
                .audience("broken", "true.a")
                .build(Ok(()))
                .expect("rule should build"),
        )
        .build()
        .expect("feature should build");
    let actual = run(&feature, &Context::new("g"));
    assert_eq!(actual.reason, Reason::Error);
    assert_eq!(actual.variant, "a");
    assert_eq!(actual.value, Value::Integer(1));
    assert_eq!(actual.audience, None);
    assert!(matches!(actual.error, Some(FetaError::Targeting(_))));
}

#[test]
fn later_variant_replaces_earlier() {
    let feature = FeatureBuilder::new(ValueType::Integer)
        .name("exp")
        .enabled(true)
        .variant("a", 1.into())
        .variant("a", 7.into())
        .default_variant("a")
        .default_rule(
            RuleBuilder::new()
                .variant("a", 100)
                .build(Ok(()))
                .expect("rule should build"),
        )
        .build()
        .expect("feature should build");
    let actual = run(&feature, &Context::new("g"));
    assert_eq!(actual.value, Value::Integer(7));
}

#[test]
fn builder_errors_are_configuration_errors() {
    let result = FeatureBuilder::new(ValueType::Integer)
        .name("f1")
        .variant("a", 1.into())
        .default_variant("a")
        .default_rule(
            RuleBuilder::new()
                .variant("a", 100)
                .audience("beta", "true")
                .build(Ok(()))
                .expect("rule should build"),
        )
        .build();
    assert!(matches!(result, Err(FetaError::Configuration(_))));
}

#[test]
fn from_config_reports_the_failing_rule() {
    let base = config::Feature {
        enabled: true,
        value_type: ValueType::Integer,
        variants: vec![("a".to_string(), 1.into())],
        default_variant: "a".to_string(),
        default_rule: config::DefaultRule {
            bucketing: config::Bucketing::Variant {
                variant: "a".to_string(),
            },
        },
        audience_rules: vec![config::AudienceRule {
            name: "beta".to_string(),
            expression: "+2".to_string(),
            bucketing: config::Bucketing::Variant {
                variant: "a".to_string(),
            },
        }],
    };
    let result = Feature::from_config("f", &base, &vec![Err("bad".to_string())]);
    assert!(matches!(result, Err(FetaError::Targeting(m)) if m == "bad"));

    let mut bad_default = base.clone();
    bad_default.default_rule = config::DefaultRule {
        bucketing: config::Bucketing::Distribution {
            distribution: vec![("a".to_string(), 90)],
        },
    };
    let result = Feature::from_config("f", &bad_default, &vec![Err("bad".to_string())]);
    assert!(matches!(result, Err(FetaError::Configuration(_))));
}
