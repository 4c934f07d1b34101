//! Features: named bundles of typed variants and ordered rules, and the
//! evaluation that turns a context into a decision.
use vstd::prelude::*;

use crate::config;
use crate::context::Context;
use crate::decision::{Decision, DecisionBuilder, DecisionView, Reason};
use crate::error::FetaError;
use crate::hash::{calculate, feature_hash, hashable};
use crate::rule::{
    applicability, built_rule, percentage_views, rule_wf, valid_percentages, variant_at, Outcome, Rule,
    RuleBuilder, RuleBuilderView, RuleView,
};
use crate::value::{Value, ValueType};

verus! {

/// Whether no two entries of a variant table share a name.
pub open spec fn keys_unique(vs: Seq<(Seq<char>, Value)>) -> bool {
    forall|i: int, j: int| 0 <= i < j < vs.len() ==> #[trigger] vs[i].0 != #[trigger] vs[j].0
}

/// Whether a variant table has an entry with the given name.
pub open spec fn has_key(vs: Seq<(Seq<char>, Value)>, k: Seq<char>) -> bool {
    exists|i: int| 0 <= i < vs.len() && #[trigger] vs[i].0 == k
}

/// The position of the entry with the given name.
pub open spec fn key_index(vs: Seq<(Seq<char>, Value)>, k: Seq<char>) -> int {
    choose|i: int| 0 <= i < vs.len() && #[trigger] vs[i].0 == k
}

/// The value of the entry with the given name.
pub open spec fn value_of(vs: Seq<(Seq<char>, Value)>, k: Seq<char>) -> Value {
    vs[key_index(vs, k)].1
}

/// The table with `k` mapped to `v`: the entry named `k` replaced in place,
/// or a new entry added at the end.
pub open spec fn upsert(vs: Seq<(Seq<char>, Value)>, k: Seq<char>, v: Value) -> Seq<
    (Seq<char>, Value),
> {
    if has_key(vs, k) {
        vs.update(key_index(vs, k), (k, v))
    } else {
        vs.push((k, v))
    }
}

/// The views of a variant table.
pub open spec fn variant_views(vs: Seq<(String, Value)>) -> Seq<(Seq<char>, Value)> {
    Seq::new(vs.len(), |i: int| (vs[i].0@, vs[i].1))
}

/// The views of a list of rules.
pub open spec fn rule_views(rs: Seq<Rule>) -> Seq<RuleView> {
    Seq::new(rs.len(), |i: int| rs[i]@)
}

/// Whether every rule is well formed.
pub open spec fn all_rules_wf(rs: Seq<RuleView>) -> bool {
    forall|i: int| 0 <= i < rs.len() ==> rule_wf(#[trigger] rs[i])
}

/// Whether every variant value has the given type.
pub open spec fn all_typed(vs: Seq<(Seq<char>, Value)>, t: ValueType) -> bool {
    forall|i: int| 0 <= i < vs.len() ==> (#[trigger] vs[i]).1.is_of(t)
}

/// Whether every variant that a bucket of a rule names is in the table.
pub open spec fn uses_defined_variants(rs: Seq<RuleView>, vs: Seq<(Seq<char>, Value)>) -> bool {
    forall|i: int, j: int|
        0 <= i < rs.len() && 0 <= j < rs[i].buckets.len() ==> has_key(
            vs,
            #[trigger] rs[i].buckets[j].variant,
        )
}

/// Finds the position of the entry with the given name.
fn find_variant(vs: &Vec<(String, Value)>, k: &String) -> (r: Option<usize>)
    ensures
        match r {
            Some(i) => i < vs@.len() && variant_views(vs@)[i as int].0 == k@,
            None => !has_key(variant_views(vs@), k@),
        },
{
    let mut i: usize = 0;
    while i < vs.len()
        invariant
            i <= vs@.len(),
            forall|j: int| 0 <= j < i ==> variant_views(vs@)[j].0 != k@,
        decreases vs@.len() - i,
    {
        if vs[i].0 == *k {
            return Some(i);
        }
        i = i + 1;
    }
    None
}

/// In a table without repeated names, the entry found for a name is the one
/// that `key_index` picks.
proof fn lemma_key_index_unique(vs: Seq<(Seq<char>, Value)>, k: Seq<char>, i: int)
    requires
        keys_unique(vs),
        0 <= i < vs.len(),
        vs[i].0 == k,
    ensures
        has_key(vs, k),
        key_index(vs, k) == i,
{
    assert(has_key(vs, k));
    let c = key_index(vs, k);
    if c < i {
        assert(vs[c].0 != vs[i].0);
    } else if c > i {
        assert(vs[i].0 != vs[c].0);
    }
}

/// A feature builder as a mathematical value.
pub struct FeatureBuilderView {
    pub name: Option<Seq<char>>,
    pub enabled: bool,
    pub value_type: ValueType,
    pub variants: Seq<(Seq<char>, Value)>,
    pub default_variant: Option<Seq<char>>,
    pub rules: Seq<RuleView>,
    pub default_rule: Option<RuleView>,
}

/// The builder for features.
pub struct FeatureBuilder {
    name: Option<String>,
    enabled: bool,
    value_type: ValueType,
    variants: Vec<(String, Value)>,
    default_variant: Option<String>,
    rules: Vec<Rule>,
    default_rule: Option<Rule>,
}

impl View for FeatureBuilder {
    type V = FeatureBuilderView;

    closed spec fn view(&self) -> FeatureBuilderView {
        FeatureBuilderView {
            name: crate::decision::opt_view(self.name),
            enabled: self.enabled,
            value_type: self.value_type,
            variants: variant_views(self.variants@),
            default_variant: crate::decision::opt_view(self.default_variant),
            rules: rule_views(self.rules@),
            default_rule: match self.default_rule {
                Some(r) => Some(r@),
                None => None,
            },
        }
    }
}

/// Whether a feature builder view is one that the builder's methods keep:
/// variant names are unique and every rule is well formed.
pub open spec fn builder_wf(b: FeatureBuilderView) -> bool {
    &&& keys_unique(b.variants)
    &&& all_rules_wf(b.rules)
    &&& (b.default_rule matches Some(d) ==> rule_wf(d))
}

/// The rules of a built feature: the audience rules in order, then the default rule.
pub open spec fn final_rules(b: FeatureBuilderView) -> Seq<RuleView> {
    b.rules.push(b.default_rule->Some_0)
}

/// Whether a builder describes a valid feature: every variant has the declared
/// type, the default variant is set and exists, the default rule is set and
/// has no expression, every rule uses defined variants only, and the name is set.
pub open spec fn buildable(b: FeatureBuilderView) -> bool {
    &&& all_typed(b.variants, b.value_type)
    &&& b.default_variant is Some
    &&& has_key(b.variants, b.default_variant->Some_0)
    &&& b.default_rule is Some
    &&& b.default_rule->Some_0.expression is None
    &&& uses_defined_variants(final_rules(b), b.variants)
    &&& b.name is Some
}

impl FeatureBuilder {
    /// Whether the builder is well formed.
    pub open spec fn wf(&self) -> bool {
        builder_wf(self@)
    }

    /// Creates a builder for features of the given value type: disabled, with
    /// no name, variants, default variant or rules.
    pub fn new(value_type: ValueType) -> (r: Self)
        ensures
            r.wf(),
            r@ == (FeatureBuilderView {
                name: None,
                enabled: false,
                value_type,
                variants: Seq::empty(),
                default_variant: None,
                rules: Seq::empty(),
                default_rule: None,
            }),
    {
        let r = FeatureBuilder {
            name: None,
            enabled: false,
            value_type,
            variants: Vec::new(),
            default_variant: None,
            rules: Vec::new(),
            default_rule: None,
        };
        assert(r@.variants =~= Seq::empty());
        assert(r@.rules =~= Seq::empty());
        r
    }

    /// Sets the name of the feature.
    pub fn name(self, name: &str) -> (r: Self)
        ensures
            r@ == (FeatureBuilderView { name: Some(name@), ..self@ }),
    {
        FeatureBuilder { name: Some(name.to_owned()), ..self }
    }

    /// Sets whether the feature is enabled.
    pub fn enabled(self, enabled: bool) -> (r: Self)
        ensures
            r@ == (FeatureBuilderView { enabled, ..self@ }),
    {
        FeatureBuilder { enabled, ..self }
    }

    /// Sets the variant named `key` to `value`, replacing a variant of that name.
    pub fn variant(self, key: &str, value: Value) -> (r: Self)
        requires
            self.wf(),
        ensures
            r.wf(),
            r@ == (FeatureBuilderView { variants: upsert(self@.variants, key@, value), ..self@ }),
    {
        let FeatureBuilder {
            name,
            enabled,
            value_type,
            mut variants,
            default_variant,
            rules,
            default_rule,
        } = self;
        let key = key.to_owned();
        let ghost vs = variant_views(variants@);
        match find_variant(&variants, &key) {
            Some(i) => {
                proof {
                    lemma_key_index_unique(vs, key@, i as int);
                }
                variants.set(i, (key, value));
                assert(variant_views(variants@) =~= upsert(vs, key@, value));
            },
            None => {
                variants.push((key, value));
                assert(variant_views(variants@) =~= upsert(vs, key@, value));
            },
        }
        FeatureBuilder { name, enabled, value_type, variants, default_variant, rules, default_rule }
    }

    /// Sets the default variant of the feature.
    pub fn default_variant(self, key: &str) -> (r: Self)
        ensures
            r@ == (FeatureBuilderView { default_variant: Some(key@), ..self@ }),
    {
        FeatureBuilder { default_variant: Some(key.to_owned()), ..self }
    }

    /// Sets the default rule of the feature.
    pub fn default_rule(self, rule: Rule) -> (r: Self)
        ensures
            r@ == (FeatureBuilderView { default_rule: Some(rule@), ..self@ }),
    {
        FeatureBuilder { default_rule: Some(rule), ..self }
    }

    /// Adds an audience rule after those already added.
    pub fn audience_rule(self, rule: Rule) -> (r: Self)
        ensures
            r@ == (FeatureBuilderView { rules: self@.rules.push(rule@), ..self@ }),
    {
        let FeatureBuilder {
            name,
            enabled,
            value_type,
            variants,
            default_variant,
            mut rules,
            default_rule,
        } = self;
        rules.push(rule);
        let r = FeatureBuilder {
            name,
            enabled,
            value_type,
            variants,
            default_variant,
            rules,
            default_rule,
        };
        assert(r@.rules =~= self@.rules.push(rule@));
        r
    }
}

/// A feature as a mathematical value.
pub struct FeatureView {
    pub name: Seq<char>,
    pub enabled: bool,
    pub variants: Seq<(Seq<char>, Value)>,
    pub default_variant: Seq<char>,
    pub default_value: Value,
    pub rules: Seq<RuleView>,
}

/// Whether a feature view holds the invariants that building establishes:
/// variant names are unique, the default variant exists and its value is
/// cached, every rule is well formed and uses defined variants only, and the
/// last rule is the default rule, which has no expression.
pub open spec fn feature_wf(f: FeatureView) -> bool {
    &&& keys_unique(f.variants)
    &&& has_key(f.variants, f.default_variant)
    &&& f.default_value == value_of(f.variants, f.default_variant)
    &&& f.rules.len() > 0
    &&& f.rules.last().expression is None
    &&& all_rules_wf(f.rules)
    &&& uses_defined_variants(f.rules, f.variants)
}

/// The feature that a buildable builder describes.
pub open spec fn built_feature(b: FeatureBuilderView) -> FeatureView {
    FeatureView {
        name: b.name->Some_0,
        enabled: b.enabled,
        variants: b.variants,
        default_variant: b.default_variant->Some_0,
        default_value: value_of(b.variants, b.default_variant->Some_0),
        rules: final_rules(b),
    }
}

/// A feature: its name, whether it is enabled, its typed variants, its
/// default variant and its rules, the default rule last.
pub struct Feature {
    name: String,
    enabled: bool,
    variants: Vec<(String, Value)>,
    default_variant: String,
    default_value: Value,
    rules: Vec<Rule>,
}

impl View for Feature {
    type V = FeatureView;

    closed spec fn view(&self) -> FeatureView {
        FeatureView {
            name: self.name@,
            enabled: self.enabled,
            variants: variant_views(self.variants@),
            default_variant: self.default_variant@,
            default_value: self.default_value,
            rules: rule_views(self.rules@),
        }
    }
}

impl FeatureBuilder {
    /// Builds the feature. The audience rules keep their order and the
    /// default rule is placed last.
    ///
    /// Fails with a configuration error when a variant's value does not have
    /// the declared type, the default variant is unset or undefined, the
    /// default rule is unset or has an audience expression, a rule uses an
    /// undefined variant, or the name is unset.
    pub fn build(self) -> (r: Result<Feature, FetaError>)
        requires
            self.wf(),
        ensures
            buildable(self@) <==> r is Ok,
            r matches Ok(f) ==> f.wf() && f@ == built_feature(self@),
            r matches Err(e) ==> e is Configuration,
            self@.default_rule matches Some(d) && d.expression is Some ==> r matches Err(
                FetaError::Configuration(_),
            ),
    {
        let ghost b = self@;
        let FeatureBuilder {
            name,
            enabled,
            value_type,
            variants,
            default_variant,
            mut rules,
            default_rule,
        } = self;
        let mut i: usize = 0;
        while i < variants.len()
            invariant
                i <= variants@.len(),
                b == self@,
                b.variants == variant_views(variants@),
                b.value_type == value_type,
                forall|j: int| 0 <= j < i ==> (#[trigger] b.variants[j]).1.is_of(value_type),
            decreases variants@.len() - i,
        {
            if !variants[i].1.has_type(&value_type) {
                assert(b.variants[i as int].1 == variants@[i as int].1);
                assert(!b.variants[i as int].1.is_of(b.value_type));
                assert(!all_typed(b.variants, b.value_type));
                return Err(FetaError::Configuration("all variants must have the declared type".to_owned()));
            }
            i = i + 1;
        }
        let default_variant = match default_variant {
            Some(d) => d,
            None => {
                return Err(FetaError::Configuration("default variant is required".to_owned()));
            },
        };
        let default_value = match find_variant(&variants, &default_variant) {
            Some(k) => {
                proof {
                    lemma_key_index_unique(b.variants, default_variant@, k as int);
                }
                variants[k].1.duplicate()
            },
            None => {
                return Err(FetaError::Configuration("default variant does not exist".to_owned()));
            },
        };
        let default_rule = match default_rule {
            Some(d) => d,
            None => {
                return Err(FetaError::Configuration("default rule is required".to_owned()));
            },
        };
        if default_rule.expression().is_some() {
            return Err(
                FetaError::Configuration("default rule must not have an expression".to_owned()),
            );
        }
        rules.push(default_rule);
        let ghost rs = rule_views(rules@);
        assert(rs =~= final_rules(b));
        let mut i: usize = 0;
        while i < rules.len()
            invariant
                i <= rules@.len(),
                b == self@,
                rs == rule_views(rules@),
                b.variants == variant_views(variants@),
                forall|p: int, q: int|
                    0 <= p < i && 0 <= q < rs[p].buckets.len() ==> has_key(
                        b.variants,
                        #[trigger] rs[p].buckets[q].variant,
                    ),
                rs == final_rules(b),
            decreases rules@.len() - i,
        {
            let used = rules[i].referenced_variants();
            assert(rs[i as int] == rules@[i as int]@);
            let mut j: usize = 0;
            while j < used.len()
                invariant
                    i < rules@.len(),
                    j <= used@.len(),
                    rs == rule_views(rules@),
                    rs[i as int] == rules@[i as int]@,
                    rs == final_rules(b),
                    b == self@,
                    used@.len() == rs[i as int].buckets.len(),
                    forall|q: int| 0 <= q < used@.len() ==> #[trigger] used@[q]@ == rs[i as int].buckets[q].variant,
                    b.variants == variant_views(variants@),
                    forall|q: int|
                        0 <= q < j ==> has_key(b.variants, #[trigger] rs[i as int].buckets[q].variant),
                decreases used@.len() - j,
            {
                if find_variant(&variants, &used[j]).is_none() {
                    assert(used@[j as int]@ == rs[i as int].buckets[j as int].variant);
                    assert(!has_key(b.variants, rs[i as int].buckets[j as int].variant));
                    assert(!uses_defined_variants(rs, b.variants));
                    return Err(FetaError::Configuration("rule uses an undefined variant".to_owned()));
                }
                j = j + 1;
            }
            i = i + 1;
        }
        let name = match name {
            Some(n) => n,
            None => {
                return Err(FetaError::Configuration("feature name is required".to_owned()));
            },
        };
        Ok(Feature { name, enabled, variants, default_variant, default_value, rules })
    }
}


/// Where an evaluation waits for the host: the hash of the user key and the
/// position of the rule whose audience expression is to be evaluated.
#[derive(Clone, Copy, Debug, PartialEq, Eq, Structural)]
pub struct Pending {
    pub hash: u32,
    pub rule: usize,
}

/// One step of deciding a feature: either the host must evaluate the audience
/// expression of a rule and hand the outcome to [`Feature::resume`], or the
/// decision is made.
#[derive(Clone, Debug, PartialEq)]
pub enum Step {
    Evaluate(Pending),
    Decided(Decision),
}

/// A step as a mathematical value.
pub enum StepView {
    Evaluate(Pending),
    Decided(DecisionView),
}

impl View for Step {
    type V = StepView;

    open spec fn view(&self) -> StepView {
        match self {
            Step::Evaluate(p) => StepView::Evaluate(*p),
            Step::Decided(d) => StepView::Decided(d@),
        }
    }
}

/// The decision every evaluation starts from: the hash, and the default
/// variant and value.
pub open spec fn fallback_decision(f: FeatureView, hash: u32) -> DecisionView {
    DecisionView {
        hash,
        variant: f.default_variant,
        reason: Reason::Unknown,
        value: f.default_value,
        audience: None,
        error: None,
    }
}

/// The decision of a disabled feature.
pub open spec fn disabled_decision(f: FeatureView, hash: u32) -> DecisionView {
    DecisionView { reason: Reason::Disabled, ..fallback_decision(f, hash) }
}

/// The decision of a failed evaluation: the fallback, with the error.
pub open spec fn error_decision(f: FeatureView, hash: u32, e: FetaError) -> DecisionView {
    DecisionView { reason: Reason::Error, error: Some(e), ..fallback_decision(f, hash) }
}

/// The decision through the rule at position `i`: the variant of the bucket
/// that holds `hash % 100`, its value, the rule's audience and reason.
pub open spec fn rule_decision(f: FeatureView, hash: u32, i: int) -> DecisionView {
    let variant = variant_at(f.rules[i].buckets, (hash % 100) as int);
    DecisionView {
        hash,
        variant,
        reason: f.rules[i].reason,
        value: value_of(f.variants, variant),
        audience: f.rules[i].audience,
        error: None,
    }
}

/// The step at the rule at position `i`: a rule without an expression applies
/// at once, one with an expression waits for its outcome.
pub open spec fn step_at(f: FeatureView, hash: u32, i: int) -> StepView {
    if f.rules[i].expression is None {
        StepView::Decided(rule_decision(f, hash, i))
    } else {
        StepView::Evaluate(Pending { hash, rule: i as usize })
    }
}

/// The first step of deciding a feature for a user key: a disabled feature is
/// decided at once, without evaluating any rule; otherwise the rules are
/// walked from the first.
pub open spec fn first_step(f: FeatureView, user_key: Seq<char>) -> StepView {
    let hash = feature_hash(f.name, user_key);
    if !f.enabled {
        StepView::Decided(disabled_decision(f, hash))
    } else {
        step_at(f, hash, 0)
    }
}

/// The step after the outcome of a pending rule's expression: a failure ends
/// in an error decision, `true` decides through that rule, anything else
/// moves on to the next rule.
pub open spec fn next_step(f: FeatureView, p: Pending, outcome: Outcome) -> StepView {
    match applicability(outcome) {
        Err(e) => StepView::Decided(error_decision(f, p.hash, e)),
        Ok(true) => StepView::Decided(rule_decision(f, p.hash, p.rule as int)),
        Ok(false) => step_at(f, p.hash, p.rule + 1),
    }
}

impl Feature {
    /// Whether the feature holds the invariants that building establishes.
    pub open spec fn wf(&self) -> bool {
        feature_wf(self@)
    }

    /// The name of the feature.
    pub fn name(&self) -> (r: &String)
        ensures
            r@ == self@.name,
    {
        &self.name
    }

    /// The rules of the feature, in evaluation order; the default rule is last.
    pub fn rules(&self) -> (r: &Vec<Rule>)
        ensures
            rule_views(r@) == self@.rules,
    {
        &self.rules
    }

    /// Retrieves the value of a variant; an undefined variant is a
    /// configuration error.
    fn variant_value(&self, variant: &String) -> (r: Result<Value, FetaError>)
        requires
            keys_unique(self@.variants),
        ensures
            has_key(self@.variants, variant@) ==> r == Ok::<Value, FetaError>(
                value_of(self@.variants, variant@),
            ),
            !has_key(self@.variants, variant@) ==> r matches Err(FetaError::Configuration(_)),
    {
        match find_variant(&self.variants, variant) {
            Some(i) => {
                proof {
                    lemma_key_index_unique(self@.variants, variant@, i as int);
                }
                Ok(self.variants[i].1.duplicate())
            },
            None => Err(FetaError::Configuration("variant not defined".to_owned())),
        }
    }

    /// A builder holding the fallback decision.
    fn fallback(&self, hash: u32) -> (r: DecisionBuilder)
        ensures
            r@ == fallback_decision(self@, hash),
    {
        DecisionBuilder::new().variant(self.default_variant.as_str()).value(
            self.default_value.duplicate(),
        ).hash(hash)
    }

    /// The step at the rule at position `i`.
    fn step_at(&self, hash: u32, i: usize) -> (r: Step)
        requires
            self.wf(),
            i < self@.rules.len(),
        ensures
            r@ == step_at(self@, hash, i as int),
    {
        let rule = &self.rules[i];
        assert(self@.rules[i as int] == rule@);
        if rule.expression().is_none() {
            Step::Decided(self.decide_by(hash, i))
        } else {
            Step::Evaluate(Pending { hash, rule: i })
        }
    }

    /// The decision through the rule at position `i`.
    fn decide_by(&self, hash: u32, i: usize) -> (r: Decision)
        requires
            self.wf(),
            i < self@.rules.len(),
        ensures
            r@ == rule_decision(self@, hash, i as int),
    {
        let rule = &self.rules[i];
        assert(self@.rules[i as int] == rule@);
        let mut builder = self.fallback(hash);
        let variant = rule.get_variant(hash);
        proof {
            let q = crate::rule::bucket_index(rule@.buckets, (hash % 100) as int);
            assert(has_key(self@.variants, self@.rules[i as int].buckets[q].variant));
        }
        match rule.audience() {
            Some(audience) => {
                builder = builder.audience(audience.as_str());
            },
            None => {},
        }
        match self.variant_value(&variant) {
            Ok(v) => builder.variant(variant.as_str()).value(v).success(rule.reason()),
            Err(e) => builder.error(e),
        }
    }

    /// Starts deciding the feature for a context. The hash of the feature name
    /// and the user key is computed first and carried by every outcome. A
    /// disabled feature is decided at once with reason `Disabled` and the
    /// default variant and value, whatever the context holds; otherwise the
    /// rules are walked in order, and the first that needs its audience
    /// expression evaluated is handed to the host.
    pub fn decide(&self, ctx: &Context) -> (r: Step)
        requires
            self.wf(),
            hashable(self@.name, ctx.user_key@),
        ensures
            r@ == first_step(self@, ctx.user_key@),
            !self@.enabled ==> r@ == StepView::Decided(
                disabled_decision(self@, feature_hash(self@.name, ctx.user_key@)),
            ),
    {
        let hash = calculate(self.name.as_str(), ctx.user_key.as_str());
        if !self.enabled {
            return Step::Decided(self.fallback(hash).disabled());
        }
        self.step_at(hash, 0)
    }

    /// Goes on deciding the feature after the host evaluated the audience
    /// expression of the pending rule. A failed evaluation ends in a
    /// targeting error decision, with the default variant and value; a
    /// boolean `true` decides through the pending rule; any other outcome
    /// moves on to the next rule.
    pub fn resume(&self, pending: Pending, outcome: Outcome) -> (r: Step)
        requires
            self.wf(),
            pending.rule < self@.rules.len(),
            self@.rules[pending.rule as int].expression is Some,
        ensures
            r@ == next_step(self@, pending, outcome),
    {
        let rule = &self.rules[pending.rule];
        assert(self@.rules[pending.rule as int] == rule@);
        let n = self.rules.len();
        assert(pending.rule + 1 < n) by {
            assert(self@.rules.last().expression is None);
        }
        match rule.is_applicable(outcome) {
            Err(e) => Step::Decided(self.fallback(pending.hash).error(e)),
            Ok(true) => Step::Decided(self.decide_by(pending.hash, pending.rule)),
            Ok(false) => self.step_at(pending.hash, pending.rule + 1),
        }
    }
}

/// Deciding a well-formed feature never yields reason `Unknown`: neither the
/// first step nor any step after an outcome.
pub proof fn lemma_decisions_are_known(f: FeatureView, user_key: Seq<char>, p: Pending, outcome: Outcome)
    requires
        feature_wf(f),
    ensures
        first_step(f, user_key) matches StepView::Decided(d) ==> d.reason != Reason::Unknown,
        p.rule < f.rules.len() && f.rules[p.rule as int].expression is Some ==> (next_step(
            f,
            p,
            outcome,
        ) matches StepView::Decided(d) ==> d.reason != Reason::Unknown),
{
    assert(rule_wf(f.rules[0]));
    if p.rule < f.rules.len() && f.rules[p.rule as int].expression is Some {
        assert(rule_wf(f.rules[p.rule as int]));
        if p.rule + 1 < f.rules.len() {
            assert(rule_wf(f.rules[p.rule + 1]));
        }
    }
}

/// The percentages that a bucketing configuration describes: one variant at
/// 100, or the distribution in order.
pub open spec fn bucketing_percentages(b: config::Bucketing) -> Seq<(Seq<char>, u8)> {
    match b {
        config::Bucketing::Variant { variant } => seq![(variant@, 100u8)],
        config::Bucketing::Distribution { distribution } => percentage_views(distribution@),
    }
}

/// The rule builder that the default rule of a configuration describes.
pub open spec fn default_rule_builder(cfg: config::Feature) -> RuleBuilderView {
    RuleBuilderView { percentages: bucketing_percentages(cfg.default_rule.bucketing), audience: None }
}

/// The rule builder that the audience rule at position `i` of a configuration describes.
pub open spec fn audience_rule_builder(cfg: config::Feature, i: int) -> RuleBuilderView {
    let r = cfg.audience_rules@[i];
    RuleBuilderView {
        percentages: bucketing_percentages(r.bucketing),
        audience: Some((r.name@, r.expression@)),
    }
}

/// Whether the audience rule at position `i` builds: valid percentages, and
/// an expression that compiled.
pub open spec fn audience_rule_builds(
    cfg: config::Feature,
    compiled: Seq<Result<(), String>>,
    i: int,
) -> bool {
    valid_percentages(audience_rule_builder(cfg, i).percentages) && compiled[i] is Ok
}

/// The position of the first of the first `n` audience rules that does not
/// build, or `n` when they all do.
pub open spec fn first_failing_rule(
    cfg: config::Feature,
    compiled: Seq<Result<(), String>>,
    n: int,
) -> int
    decreases n,
{
    if n <= 0 {
        0
    } else if first_failing_rule(cfg, compiled, n - 1) < n - 1 {
        first_failing_rule(cfg, compiled, n - 1)
    } else if audience_rule_builds(cfg, compiled, n - 1) {
        n
    } else {
        n - 1
    }
}

/// The variant table after setting the first `n` configured variants in order.
pub open spec fn configured_variants(vs: Seq<(Seq<char>, Value)>, n: int) -> Seq<
    (Seq<char>, Value),
>
    decreases n,
{
    if n <= 0 || n > vs.len() {
        Seq::empty()
    } else {
        upsert(configured_variants(vs, n - 1), vs[n - 1].0, vs[n - 1].1)
    }
}

/// The feature builder that a configuration describes, once its rules built.
pub open spec fn configured_builder(name: Seq<char>, cfg: config::Feature) -> FeatureBuilderView {
    FeatureBuilderView {
        name: Some(name),
        enabled: cfg.enabled,
        value_type: cfg.value_type,
        variants: configured_variants(variant_views(cfg.variants@), cfg.variants@.len() as int),
        default_variant: Some(cfg.default_variant@),
        rules: Seq::new(
            cfg.audience_rules@.len(),
            |i: int| built_rule(audience_rule_builder(cfg, i)),
        ),
        default_rule: Some(built_rule(default_rule_builder(cfg))),
    }
}

/// Whether a configuration and the compiler's verdicts on its expressions
/// make a feature.
pub open spec fn config_builds(name: Seq<char>, cfg: config::Feature, compiled: Seq<Result<(), String>>) -> bool {
    &&& valid_percentages(bucketing_percentages(cfg.default_rule.bucketing))
    &&& first_failing_rule(cfg, compiled, compiled.len() as int) == compiled.len()
    &&& buildable(configured_builder(name, cfg))
}

/// Whether `e` is the error that building a feature from a configuration
/// gives: a configuration error for the default rule's percentages; else, for
/// the first audience rule that does not build, a configuration error for its
/// percentages or the targeting error of its expression; else a
/// configuration error of the feature's own checks.
pub open spec fn config_error(cfg: config::Feature, compiled: Seq<Result<(), String>>, e: FetaError) -> bool {
    let k = first_failing_rule(cfg, compiled, compiled.len() as int);
    if valid_percentages(bucketing_percentages(cfg.default_rule.bucketing)) && k < compiled.len()
        && valid_percentages(audience_rule_builder(cfg, k).percentages) {
        e == FetaError::Targeting(compiled[k]->Err_0)
    } else {
        e is Configuration
    }
}

/// Once a position fails, it stays the first failing one.
proof fn lemma_first_failing_stable(
    cfg: config::Feature,
    compiled: Seq<Result<(), String>>,
    m: int,
    n: int,
)
    requires
        0 <= m <= n,
        first_failing_rule(cfg, compiled, m) < m,
    ensures
        first_failing_rule(cfg, compiled, n) == first_failing_rule(cfg, compiled, m),
    decreases n - m,
{
    if m < n {
        lemma_first_failing_stable(cfg, compiled, m, n - 1);
    }
}

/// First failing position is at most `n`, and is `n` exactly when all of the
/// first `n` rules build.
proof fn lemma_first_failing_bounds(cfg: config::Feature, compiled: Seq<Result<(), String>>, n: int)
    requires
        0 <= n,
    ensures
        0 <= first_failing_rule(cfg, compiled, n) <= n,
        first_failing_rule(cfg, compiled, n) < n ==> !audience_rule_builds(
            cfg,
            compiled,
            first_failing_rule(cfg, compiled, n),
        ),
    decreases n,
{
    if n > 0 {
        lemma_first_failing_bounds(cfg, compiled, n - 1);
    }
}

/// Creates a rule builder from a bucketing configuration.
pub fn new_rule_builder(bucketing: &config::Bucketing) -> (r: RuleBuilder)
    ensures
        r@ == (RuleBuilderView { percentages: bucketing_percentages(*bucketing), audience: None }),
{
    let mut builder = RuleBuilder::new();
    match bucketing {
        config::Bucketing::Variant { variant } => {
            builder = builder.variant(variant.as_str(), 100);
            assert(builder@.percentages =~= seq![(variant@, 100u8)]);
        },
        config::Bucketing::Distribution { distribution } => {
            let mut i: usize = 0;
            while i < distribution.len()
                invariant
                    i <= distribution@.len(),
                    builder@.audience is None,
                    builder@.percentages == percentage_views(distribution@).take(i as int),
                decreases distribution@.len() - i,
            {
                let (variant, percentage) = &distribution[i];
                builder = builder.variant(variant.as_str(), *percentage);
                assert(builder@.percentages =~= percentage_views(distribution@).take(i + 1));
                i = i + 1;
            }
            assert(percentage_views(distribution@).take(i as int) =~= percentage_views(
                distribution@,
            ));
        },
    }
    builder
}

/// Creates the default rule from its bucketing configuration.
fn default_rule_from_config(bucketing: &config::Bucketing) -> (r: Result<Rule, FetaError>)
    ensures
        !valid_percentages(bucketing_percentages(*bucketing)) ==> r matches Err(
            FetaError::Configuration(_),
        ),
        valid_percentages(bucketing_percentages(*bucketing)) ==> (r matches Ok(rule) && rule.wf()
            && rule@ == built_rule(
            RuleBuilderView { percentages: bucketing_percentages(*bucketing), audience: None },
        )),
{
    new_rule_builder(bucketing).build(Ok(()))
}

/// Creates an audience rule from its configuration and the compiler's verdict
/// on its expression.
fn audience_rule_from_config(
    audience: &str,
    bucketing: &config::Bucketing,
    expr: &str,
    compiled: Result<(), String>,
) -> (r: Result<Rule, FetaError>)
    ensures
        !valid_percentages(bucketing_percentages(*bucketing)) ==> r matches Err(
            FetaError::Configuration(_),
        ),
        valid_percentages(bucketing_percentages(*bucketing)) && compiled is Err ==> r == Err::<
            Rule,
            FetaError,
        >(FetaError::Targeting(compiled->Err_0)),
        valid_percentages(bucketing_percentages(*bucketing)) && compiled is Ok ==> (r matches Ok(
            rule,
        ) && rule.wf() && rule@ == built_rule(
            RuleBuilderView {
                percentages: bucketing_percentages(*bucketing),
                audience: Some((audience@, expr@)),
            },
        )),
{
    new_rule_builder(bucketing).audience(audience, expr).build(compiled)
}

/// A copy of a compiler verdict.
fn copy_verdict(v: &Result<(), String>) -> (r: Result<(), String>)
    ensures
        r == *v,
{
    match v {
        Ok(u) => Ok(*u),
        Err(m) => Err(m.clone()),
    }
}

impl Feature {
    /// Creates a feature from its name and configuration. `compiled` holds the
    /// expression compiler's verdict on the expression of each audience rule,
    /// in order.
    ///
    /// The default rule is built first, then the variants are set in order,
    /// then the audience rules are built in order; the first rule that does
    /// not build gives the error (a configuration error for its percentages,
    /// a targeting error for its expression). Then the feature is built and
    /// checked as [`FeatureBuilder::build`] does.
    pub fn from_config(name: &str, cfg: &config::Feature, compiled: &Vec<Result<(), String>>) -> (r:
        Result<Self, FetaError>)
        requires
            compiled@.len() == cfg.audience_rules@.len(),
        ensures
            !valid_percentages(bucketing_percentages(cfg.default_rule.bucketing)) ==> r matches Err(
                FetaError::Configuration(_),
            ),
            ({
                let k = first_failing_rule(*cfg, compiled@, compiled@.len() as int);
                valid_percentages(bucketing_percentages(cfg.default_rule.bucketing)) && k
                    < compiled@.len() ==> if valid_percentages(
                    audience_rule_builder(*cfg, k).percentages,
                ) {
                    r == Err::<Self, FetaError>(FetaError::Targeting(compiled@[k]->Err_0))
                } else {
                    r matches Err(FetaError::Configuration(_))
                }
            }),
            valid_percentages(bucketing_percentages(cfg.default_rule.bucketing)) && first_failing_rule(
                *cfg,
                compiled@,
                compiled@.len() as int,
            ) == compiled@.len() ==> {
                &&& buildable(configured_builder(name@, *cfg)) <==> r is Ok
                &&& r matches Ok(f) ==> f.wf() && f@ == built_feature(
                    configured_builder(name@, *cfg),
                )
                &&& r matches Err(e) ==> e is Configuration
            },
            r is Ok <==> config_builds(name@, *cfg, compiled@),
            r matches Err(e) ==> config_error(*cfg, compiled@, e),
    {
        let ghost target = configured_builder(name@, *cfg);
        let ghost vs = variant_views(cfg.variants@);
        let ghost n = compiled@.len() as int;
        let builder = FeatureBuilder::new(cfg.value_type).name(name).enabled(cfg.enabled).default_variant(
            cfg.default_variant.as_str(),
        );
        let default_rule = match default_rule_from_config(&cfg.default_rule.bucketing) {
            Ok(rule) => rule,
            Err(e) => {
                return Err(e);
            },
        };
        let mut builder = builder.default_rule(default_rule);
        assert(builder@ == (FeatureBuilderView {
            variants: configured_variants(vs, 0),
            rules: Seq::empty(),
            ..target
        }));
        let mut i: usize = 0;
        while i < cfg.variants.len()
            invariant
                i <= cfg.variants@.len(),
                vs == variant_views(cfg.variants@),
                target == configured_builder(name@, *cfg),
                builder.wf(),
                builder@ == (FeatureBuilderView {
                    variants: configured_variants(vs, i as int),
                    rules: Seq::empty(),
                    ..target
                }),
            decreases cfg.variants@.len() - i,
        {
            let (key, value) = &cfg.variants[i];
            assert(vs[i as int] == (key@, *value));
            builder = builder.variant(key.as_str(), value.duplicate());
            i = i + 1;
        }
        assert(target.rules.take(0) =~= Seq::empty());
        assert(builder@ == (FeatureBuilderView { rules: target.rules.take(0), ..target }));
        proof {
            assert(first_failing_rule(*cfg, compiled@, 0) == 0);
        }
        let mut i: usize = 0;
        while i < cfg.audience_rules.len()
            invariant
                i <= cfg.audience_rules@.len(),
                n == compiled@.len(),
                n == cfg.audience_rules@.len(),
                valid_percentages(bucketing_percentages(cfg.default_rule.bucketing)),
                target == configured_builder(name@, *cfg),
                builder.wf(),
                builder@ == (FeatureBuilderView { rules: target.rules.take(i as int), ..target }),
                first_failing_rule(*cfg, compiled@, i as int) == i,
            decreases cfg.audience_rules@.len() - i,
        {
            let aud = &cfg.audience_rules[i];
            let verdict = copy_verdict(&compiled[i]);
            let rule = match audience_rule_from_config(
                aud.name.as_str(),
                &aud.bucketing,
                aud.expression.as_str(),
                verdict,
            ) {
                Ok(rule) => rule,
                Err(e) => {
                    proof {
                        assert(!audience_rule_builds(*cfg, compiled@, i as int));
                        assert(first_failing_rule(*cfg, compiled@, i + 1) == i);
                        lemma_first_failing_stable(*cfg, compiled@, i + 1, n);
                        lemma_first_failing_bounds(*cfg, compiled@, n);
                    }
                    return Err(e);
                },
            };
            proof {
                assert(audience_rule_builds(*cfg, compiled@, i as int));
                assert(first_failing_rule(*cfg, compiled@, i + 1) == i + 1);
            }
            builder = builder.audience_rule(rule);
            assert(builder@.rules =~= target.rules.take(i + 1));
            i = i + 1;
        }
        assert(target.rules.take(n) =~= target.rules);
        builder.build()
    }
}

/// Setting variants in turn keeps their names unique.
proof fn lemma_configured_variants_unique(vs: Seq<(Seq<char>, Value)>, n: int)
    ensures
        keys_unique(configured_variants(vs, n)),
    decreases n,
{
    if n > 0 && n <= vs.len() {
        lemma_configured_variants_unique(vs, n - 1);
        let prev = configured_variants(vs, n - 1);
        let k = vs[n - 1].0;
        let next = configured_variants(vs, n);
        if has_key(prev, k) {
            let c = key_index(prev, k);
            assert forall|i: int, j: int| 0 <= i < j < next.len() implies #[trigger] next[i].0
                != #[trigger] next[j].0 by {
                assert(next[i].0 == prev[i].0);
                assert(next[j].0 == prev[j].0);
            }
        } else {
            assert forall|i: int, j: int| 0 <= i < j < next.len() implies #[trigger] next[i].0
                != #[trigger] next[j].0 by {
                if j == prev.len() {
                    assert(prev[i].0 != k);
                } else {
                    assert(prev[i].0 != prev[j].0);
                }
            }
        }
    }
}

/// When none of the first `n` audience rules fails, each of them builds.
proof fn lemma_none_failing(cfg: config::Feature, compiled: Seq<Result<(), String>>, n: int)
    requires
        0 <= n,
        first_failing_rule(cfg, compiled, n) == n,
    ensures
        forall|i: int| 0 <= i < n ==> audience_rule_builds(cfg, compiled, i),
    decreases n,
{
    if n > 0 {
        lemma_first_failing_bounds(cfg, compiled, n - 1);
        assert(first_failing_rule(cfg, compiled, n - 1) == n - 1);
        lemma_none_failing(cfg, compiled, n - 1);
    }
}

/// The rule a builder with valid percentages describes is well formed.
proof fn lemma_built_rule_wf(b: RuleBuilderView)
    requires
        valid_percentages(b.percentages),
    ensures
        rule_wf(built_rule(b)),
{
    crate::rule::lemma_layout_partitions(b.percentages);
}

/// A feature built from a configuration is well formed, and deciding it for
/// any user key, after any outcome of any pending rule, never yields reason
/// `Unknown`.
pub proof fn lemma_configured_decisions_are_known(
    name: Seq<char>,
    cfg: config::Feature,
    compiled: Seq<Result<(), String>>,
    user_key: Seq<char>,
    p: Pending,
    outcome: Outcome,
)
    requires
        compiled.len() == cfg.audience_rules@.len(),
        config_builds(name, cfg, compiled),
    ensures
        feature_wf(built_feature(configured_builder(name, cfg))),
        first_step(built_feature(configured_builder(name, cfg)), user_key) matches StepView::Decided(
            d,
        ) ==> d.reason != Reason::Unknown,
        ({
            let f = built_feature(configured_builder(name, cfg));
            p.rule < f.rules.len() && f.rules[p.rule as int].expression is Some ==> (next_step(
                f,
                p,
                outcome,
            ) matches StepView::Decided(d) ==> d.reason != Reason::Unknown)
        }),
{
    let b = configured_builder(name, cfg);
    let f = built_feature(b);
    lemma_configured_variants_unique(variant_views(cfg.variants@), cfg.variants@.len() as int);
    lemma_none_failing(cfg, compiled, compiled.len() as int);
    assert forall|i: int| 0 <= i < f.rules.len() implies rule_wf(#[trigger] f.rules[i]) by {
        if i < b.rules.len() {
            assert(audience_rule_builds(cfg, compiled, i));
            lemma_built_rule_wf(audience_rule_builder(cfg, i));
        } else {
            lemma_built_rule_wf(default_rule_builder(cfg));
        }
    }
    lemma_decisions_are_known(f, user_key, p, outcome);
}

} // verus!
