//! Decisions: the result of evaluating a feature for a context.
use vstd::prelude::*;

use crate::error::FetaError;
use crate::value::Value;

verus! {

/// Why a decision came out as it did.
#[derive(Clone, Copy, Debug, PartialEq, Eq, Structural)]
pub enum Reason {
    Unknown,
    Disabled,
    Static,
    Split,
    Match,
    MatchSplit,
    Error,
}

impl Reason {
    /// The fixed name of the reason.
    pub open spec fn name(self) -> Seq<char> {
        match self {
            Reason::Unknown => "unknown"@,
            Reason::Disabled => "disabled"@,
            Reason::Static => "static"@,
            Reason::Split => "split"@,
            Reason::Match => "match"@,
            Reason::MatchSplit => "match_split"@,
            Reason::Error => "error"@,
        }
    }

    /// Returns the fixed name of the reason, such as `match_split`.
    pub fn to_string(&self) -> (r: String)
        ensures
            r@ == self.name(),
    {
        match self {
            Reason::Unknown => "unknown".to_owned(),
            Reason::Disabled => "disabled".to_owned(),
            Reason::Static => "static".to_owned(),
            Reason::Split => "split".to_owned(),
            Reason::Match => "match".to_owned(),
            Reason::MatchSplit => "match_split".to_owned(),
            Reason::Error => "error".to_owned(),
        }
    }
}

/// The view of an optional string.
pub open spec fn opt_view(s: Option<String>) -> Option<Seq<char>> {
    match s {
        Some(t) => Some(t@),
        None => None,
    }
}

/// A decision as a mathematical value.
pub struct DecisionView {
    pub hash: u32,
    pub variant: Seq<char>,
    pub reason: Reason,
    pub value: Value,
    pub audience: Option<Seq<char>>,
    pub error: Option<FetaError>,
}

/// The result of a feature evaluation: the variant, the reason, and any error.
#[derive(Clone, Debug, PartialEq)]
pub struct Decision {
    pub hash: u32,
    pub variant: String,
    pub reason: Reason,
    pub value: Value,
    pub audience: Option<String>,
    pub error: Option<FetaError>,
}

impl View for Decision {
    type V = DecisionView;

    open spec fn view(&self) -> DecisionView {
        DecisionView {
            hash: self.hash,
            variant: self.variant@,
            reason: self.reason,
            value: self.value,
            audience: opt_view(self.audience),
            error: self.error,
        }
    }
}

/// A builder for decisions; whatever it is given, it builds a complete decision.
pub struct DecisionBuilder {
    hash: u32,
    variant: Option<String>,
    reason: Reason,
    value: Value,
    audience: Option<String>,
    error: Option<FetaError>,
}

impl DecisionBuilder {
    /// The decision this builder holds so far; a variant that was never set reads as empty.
    pub closed spec fn draft(&self) -> DecisionView {
        DecisionView {
            hash: self.hash,
            variant: match self.variant {
                Some(v) => v@,
                None => Seq::empty(),
            },
            reason: self.reason,
            value: self.value,
            audience: opt_view(self.audience),
            error: self.error,
        }
    }
}

impl View for DecisionBuilder {
    type V = DecisionView;

    open spec fn view(&self) -> DecisionView {
        self.draft()
    }
}

/// The decision a fresh builder starts from.
pub open spec fn empty_decision() -> DecisionView {
    DecisionView {
        hash: 0,
        variant: Seq::empty(),
        reason: Reason::Unknown,
        value: Value::Null,
        audience: None,
        error: None,
    }
}

impl DecisionBuilder {
    /// Creates a builder with hash 0, no variant, reason `Unknown`, value `Null`,
    /// no audience and no error.
    pub fn new() -> (r: Self)
        ensures
            r@ == empty_decision(),
    {
        DecisionBuilder {
            hash: 0,
            variant: None,
            reason: Reason::Unknown,
            value: Value::Null,
            audience: None,
            error: None,
        }
    }

    /// Sets the hash value for the decision.
    pub fn hash(self, hash: u32) -> (r: Self)
        ensures
            r@ == (DecisionView { hash, ..self@ }),
    {
        DecisionBuilder { hash, ..self }
    }

    /// Sets the variant for the decision.
    pub fn variant(self, variant: &str) -> (r: Self)
        ensures
            r@ == (DecisionView { variant: variant@, ..self@ }),
    {
        DecisionBuilder { variant: Some(variant.to_owned()), ..self }
    }

    /// Sets the value for the decision.
    pub fn value(self, value: Value) -> (r: Self)
        ensures
            r@ == (DecisionView { value, ..self@ }),
    {
        DecisionBuilder { value, ..self }
    }

    /// Sets the audience for the decision.
    pub fn audience(self, audience: &str) -> (r: Self)
        ensures
            r@ == (DecisionView { audience: Some(audience@), ..self@ }),
    {
        DecisionBuilder { audience: Some(audience.to_owned()), ..self }
    }

    /// Builds the decision as disabled.
    pub fn disabled(self) -> (r: Decision)
        ensures
            r@ == (DecisionView { reason: Reason::Disabled, ..self@ }),
    {
        DecisionBuilder { reason: Reason::Disabled, ..self }.build()
    }

    /// Builds the decision as successful, with the given reason.
    pub fn success(self, reason: Reason) -> (r: Decision)
        ensures
            r@ == (DecisionView { reason, ..self@ }),
    {
        DecisionBuilder { reason, ..self }.build()
    }

    /// Builds the decision as an error: reason `Error` and the error recorded.
    pub fn error(self, err: FetaError) -> (r: Decision)
        ensures
            r@ == (DecisionView { reason: Reason::Error, error: Some(err), ..self@ }),
    {
        DecisionBuilder { reason: Reason::Error, error: Some(err), ..self }.build()
    }

    /// Builds the decision from the current values; an unset variant becomes empty.
    fn build(self) -> (r: Decision)
        ensures
            r@ == self@,
    {
        let variant = match self.variant {
            Some(v) => v,
            None => String::new(),
        };
        Decision {
            hash: self.hash,
            variant,
            reason: self.reason,
            value: self.value,
            audience: self.audience,
            error: self.error,
        }
    }
}

impl Default for DecisionBuilder {
    /// Creates a builder with the same values as [`DecisionBuilder::new`].
    fn default() -> (r: Self)
        ensures
            r@ == empty_decision(),
    {
        DecisionBuilder::new()
    }
}

} // verus!
