use std::collections::HashMap;

use feta::config;
use feta::{
    Context, Decision, DecisionBuilder, FetaError, Features, Outcome, Reason, Step, Value, ValueType,
};

/// A stand-in for the host's expression language: an expression names a
/// context attribute, and an absent attribute reads as null.
fn outcome_of(expression: &str, ctx: &Context) -> Outcome {
    match ctx.attributes.as_ref().and_then(|a| a.get(expression)) {
        Some(Value::Boolean(b)) => Outcome::Boolean(*b),
        _ => Outcome::NotBoolean,
    }
}

/// Completes the evaluation of the named feature from a first step.
fn complete(features: &Features, name: &str, ctx: &Context, first: Step) -> Decision {
    let mut step = first;
    loop {
        match step {
            Step::Decided(d) => return d,
            Step::Evaluate(p) => {
                let feature = features.get(name).expect("pending feature is registered");
                let expression = feature.rules()[p.rule].expression().clone().unwrap();
                step = feature.resume(p, outcome_of(&expression, ctx));
            }
        }
    }
}

fn get_config() -> config::Config {
    config::Config {
        features: vec![(
            "f1".to_string(),
            config::Feature {
                enabled: true,
                value_type: ValueType::Integer,
                variants: vec![("a".to_string(), 1.into()), ("b".to_string(), 2.into())],
                default_variant: "a".to_string(),
                default_rule: config::DefaultRule {
                    bucketing: config::Bucketing::Distribution {
                        distribution: vec![("a".to_string(), 50), ("b".to_string(), 50)],
                    },
                },
                audience_rules: vec![config::AudienceRule {
                    name: "beta".to_string(),
                    expression: "beta".to_string(),
                    bucketing: config::Bucketing::Variant {
                        variant: "b".to_string(),
                    },
                }],
            },
        )],
    }
}

fn verdicts(config: &config::Config) -> Vec<Vec<Result<(), String>>> {
    config
        .features
        .iter()
        .map(|(_, f)| f.audience_rules.iter().map(|_| Ok(())).collect())
        .collect()
}

#[test]
fn test_features_evaluate_success() {
    let config = get_config();
    let features = Features::from_config(&config, &verdicts(&config)).unwrap();
    let ctx = Context::new("g");

    let first = features.decide("f1", &ctx);
    let actual = complete(&features, "f1", &ctx, first);
    let mut expected = DecisionBuilder::new()
        .variant("a")
        .value(1.into())
        .success(Reason::Split);

    expected.hash = actual.hash;
    assert_eq!(actual, expected);
}

#[test]
fn test_features_evaluate_error() {
    let config = get_config();
    let features = Features::from_config(&config, &verdicts(&config)).unwrap();
    let ctx = Context::new("g");

    let actual = complete(&features, "invalid", &ctx, features.decide("invalid", &ctx));

    assert!(actual.hash != 0);
    assert_eq!(actual.reason, Reason::Error);
    assert_eq!(actual.value, Value::Null);
    assert!(actual.error.is_some());
}

#[test]
fn test_features_evaluate_all() {
    let config = get_config();
    let features = Features::from_config(&config, &verdicts(&config)).unwrap();
    let ctx = Context::new("g");

    let actual: HashMap<String, Decision> = features
        .decide_all(&ctx)
        .into_iter()
        .map(|(name, step)| {
            let d = complete(&features, &name, &ctx, step);
            (name, d)
        })
        .collect();
    let mut expected = HashMap::from([(
        "f1".to_string(),
        DecisionBuilder::new()
            .variant("a")
            .value(1.into())
            .success(Reason::Split),
    )]);

    for (key, expected) in expected.iter_mut() {
        expected.hash = actual.get(key).unwrap().hash;
    }

    assert_eq!(actual, expected);
}

#[test]
fn unknown_feature_is_a_request_error_with_its_hash() {
    let config = get_config();
    let features = Features::from_config(&config, &verdicts(&config)).unwrap();
    let ctx = Context::new("g");
    match features.decide("missing", &ctx) {
        Step::Decided(d) => {
            assert_eq!(d.hash, feta::hash::calculate("missing", "g"));
            assert_eq!(d.variant, "");
            assert_eq!(d.audience, None);
            assert_eq!(
                d.error,
                Some(FetaError::Request("invalid feature: missing".to_string()))
            );
        }
        Step::Evaluate(_) => panic!("an unknown feature needs no evaluation"),
    }
}

#[test]
fn audience_match_through_registry() {
    let config = get_config();
    let features = Features::from_config(&config, &verdicts(&config)).unwrap();
    let mut ctx = Context::new("g");
    ctx.attributes = Some(HashMap::from([("beta".to_string(), Value::Boolean(true))]));
    let first = features.decide("f1", &ctx);
    assert!(matches!(first, Step::Evaluate(p) if p.rule == 0));
    let actual = complete(&features, "f1", &ctx, first);
    assert_eq!(actual.variant, "b");
    assert_eq!(actual.value, Value::Integer(2));
    assert_eq!(actual.reason, Reason::Match);
    assert_eq!(actual.audience, Some("beta".to_string()));
}

#[test]
fn registry_is_all_or_nothing() {
    let mut config = get_config();
    let (_, good) = config.features[0].clone();
    let mut bad = good.clone();
    bad.default_variant = "zzz".to_string();
    config.features.push(("f2".to_string(), bad));
    config.features.push(("f3".to_string(), good));
    let result = Features::from_config(&config, &verdicts(&config));
    assert!(matches!(result, Err(FetaError::Configuration(_))));
}

#[test]
fn compile_failure_fails_the_registry() {
    let config = get_config();
    let result = Features::from_config(&config, &vec![vec![Err("oops".to_string())]]);
    assert!(matches!(result, Err(FetaError::Targeting(m)) if m == "oops"));
}

#[test]
fn same_name_registers_once() {
    let mut config = get_config();
    let (_, mut again) = config.features[0].clone();
    again.enabled = false;
    config.features.push(("f1".to_string(), again));
    let features = Features::from_config(&config, &verdicts(&config)).unwrap();
    let ctx = Context::new("g");
    let all = features.decide_all(&ctx);
    assert_eq!(all.len(), 1);
    let d = complete(&features, "f1", &ctx, features.decide("f1", &ctx));
    assert_eq!(d.reason, Reason::Disabled);
}

#[test]
fn empty_registry_decides_nothing() {
    let features = Features::default();
    assert!(features.decide_all(&Context::new("g")).is_empty());
    assert!(features.get("f1").is_none());
}
