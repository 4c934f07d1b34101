//! The declarative configuration that features are built from.
use vstd::prelude::*;

use crate::value::{Value, ValueType};

verus! {

/// The configuration for all features, as `(name, feature)` pairs.
#[derive(Clone, Debug)]
pub struct Config {
    pub features: Vec<(String, Feature)>,
}

/// The configuration for a single feature.
#[derive(Clone, Debug)]
pub struct Feature {
    pub enabled: bool,
    pub value_type: ValueType,
    /// The variants as `(name, value)` pairs.
    pub variants: Vec<(String, Value)>,
    pub default_variant: String,
    pub audience_rules: Vec<AudienceRule>,
    pub default_rule: DefaultRule,
}

/// The configuration for the default rule, which applies when no audience rule does.
#[derive(Clone, Debug)]
pub struct DefaultRule {
    pub bucketing: Bucketing,
}

/// The configuration for an audience rule, which applies to the users its
/// expression selects.
#[derive(Clone, Debug)]
pub struct AudienceRule {
    pub name: String,
    pub expression: String,
    pub bucketing: Bucketing,
}

/// How users are bucketed into variants: all into a single variant, or by a
/// distribution of `(variant, percentage)` pairs laid out in order.
#[derive(Clone, Debug)]
pub enum Bucketing {
    Variant { variant: String },
    Distribution { distribution: Vec<(String, u8)> },
}

} // verus!
