//! A deterministic feature-targeting and bucketing engine.
//!
//! A [`Feature`] holds typed variants and an ordered list of [`Rule`]s; deciding a
//! feature for a user hashes the feature name with the user key, walks the rules
//! and lays the hash onto the buckets of the first rule that applies. Audience
//! expressions belong to a host-supplied expression language: the library asks
//! for their outcome through [`Step::Evaluate`] and goes on from what the host
//! hands back.

pub mod config;
pub mod context;
pub mod decision;
pub mod error;
pub mod feature;
pub mod features;
pub mod hash;
pub mod rule;
pub mod value;

pub use crate::context::Context;
pub use crate::decision::{Decision, DecisionBuilder, Reason};
pub use crate::error::FetaError;
pub use crate::feature::{Feature, FeatureBuilder, Pending, Step};
pub use crate::features::Features;
pub use crate::rule::{Bucket, Outcome, Rule, RuleBuilder};
pub use crate::value::{Value, ValueType};
