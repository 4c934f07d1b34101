//! Rules: validated partitions of `0..100` into variant buckets, optionally
//! gated by an audience expression.
use vstd::prelude::*;

use crate::decision::{opt_view, Reason};
use crate::error::FetaError;

verus! {

/// A bucket as a mathematical value: the half-open range `[lower, upper)`.
pub struct BucketView {
    pub variant: Seq<char>,
    pub lower: int,
    pub upper: int,
}

/// Whether a bucket's range holds `x`.
pub open spec fn covers(b: BucketView, x: int) -> bool {
    b.lower <= x < b.upper
}

/// Whether buckets partition `0..100`: they start at 0, follow one another
/// without gap or overlap, and end at exactly 100.
pub open spec fn partitions(bs: Seq<BucketView>) -> bool {
    &&& bs.len() > 0
    &&& bs[0].lower == 0
    &&& bs.last().upper == 100
    &&& forall|i: int| 0 <= i < bs.len() ==> #[trigger] bs[i].lower <= bs[i].upper
    &&& forall|i: int| 0 <= i < bs.len() - 1 ==> #[trigger] bs[i].upper == bs[i + 1].lower
    &&& forall|i: int, j: int| 0 <= i < j < bs.len() ==> #[trigger] bs[i].upper <= #[trigger] bs[j].lower
}

/// The position of the bucket that holds `x`.
pub open spec fn bucket_index(bs: Seq<BucketView>, x: int) -> int {
    choose|i: int| 0 <= i < bs.len() && covers(bs[i], x)
}

/// The variant of the bucket that holds `x`.
pub open spec fn variant_at(bs: Seq<BucketView>, x: int) -> Seq<char> {
    bs[bucket_index(bs, x)].variant
}

/// The sum of the first `n` percentages.
pub open spec fn prefix_sum(ps: Seq<(Seq<char>, u8)>, n: int) -> int
    decreases n,
{
    if n <= 0 || n > ps.len() {
        0
    } else {
        prefix_sum(ps, n - 1) + ps[n - 1].1
    }
}

/// Whether percentages make a valid rule: at least one, summing to exactly 100.
pub open spec fn valid_percentages(ps: Seq<(Seq<char>, u8)>) -> bool {
    ps.len() > 0 && prefix_sum(ps, ps.len() as int) == 100
}

/// The buckets laid out from percentages in order, each starting where the
/// previous one ended, the first at 0.
pub open spec fn laid_out(ps: Seq<(Seq<char>, u8)>) -> Seq<BucketView> {
    Seq::new(
        ps.len(),
        |i: int| BucketView { variant: ps[i].0, lower: prefix_sum(ps, i), upper: prefix_sum(ps, i + 1) },
    )
}

/// The reason a rule gives, from its bucket count and whether it has an audience.
pub open spec fn classify(n_buckets: nat, has_audience: bool) -> Reason {
    if n_buckets == 1 {
        if has_audience { Reason::Match } else { Reason::Static }
    } else {
        if has_audience { Reason::MatchSplit } else { Reason::Split }
    }
}

/// Prefix sums never decrease.
proof fn lemma_prefix_sum_monotone(ps: Seq<(Seq<char>, u8)>, i: int, j: int)
    requires
        0 <= i <= j <= ps.len(),
    ensures
        prefix_sum(ps, i) <= prefix_sum(ps, j),
    decreases j - i,
{
    if i < j {
        lemma_prefix_sum_monotone(ps, i, j - 1);
    }
}

/// Valid percentages lay out buckets that partition `0..100`.
pub proof fn lemma_layout_partitions(ps: Seq<(Seq<char>, u8)>)
    requires
        valid_percentages(ps),
    ensures
        partitions(laid_out(ps)),
{
    let bs = laid_out(ps);
    assert(bs[0].lower == 0);
    assert forall|i: int, j: int| 0 <= i < j < bs.len() implies #[trigger] bs[i].upper
        <= #[trigger] bs[j].lower by {
        lemma_prefix_sum_monotone(ps, i + 1, j);
    }
}

/// In a partition, the bucket that holds `x` is the one at any position whose
/// range holds `x`.
pub proof fn lemma_bucket_index_unique(bs: Seq<BucketView>, x: int, i: int)
    requires
        partitions(bs),
        0 <= i < bs.len(),
        covers(bs[i], x),
    ensures
        bucket_index(bs, x) == i,
        variant_at(bs, x) == bs[i].variant,
{
    let c = bucket_index(bs, x);
    assert(0 <= c < bs.len() && covers(bs[c], x));
    if c < i {
        assert(bs[c].upper <= bs[i].lower);
    } else if c > i {
        assert(bs[i].upper <= bs[c].lower);
    }
}

/// A bucket of a rule: the half-open hash range `[lower_bound, upper_bound)`
/// over `0..100` that maps to a variant.
#[derive(Clone, Debug)]
pub struct Bucket {
    variant: String,
    lower_bound: u32,
    upper_bound: u32,
}

impl View for Bucket {
    type V = BucketView;

    closed spec fn view(&self) -> BucketView {
        BucketView {
            variant: self.variant@,
            lower: self.lower_bound as int,
            upper: self.upper_bound as int,
        }
    }
}

impl Bucket {
    /// The variant of the bucket.
    pub fn variant(&self) -> (r: &String)
        ensures
            r@ == self@.variant,
    {
        &self.variant
    }

    /// The inclusive lower bound of the bucket.
    pub fn lower_bound(&self) -> (r: u32)
        ensures
            r == self@.lower,
    {
        self.lower_bound
    }

    /// The exclusive upper bound of the bucket.
    pub fn upper_bound(&self) -> (r: u32)
        ensures
            r == self@.upper,
    {
        self.upper_bound
    }
}

/// The views of a sequence of buckets.
pub open spec fn bucket_views(bs: Seq<Bucket>) -> Seq<BucketView> {
    Seq::new(bs.len(), |i: int| bs[i]@)
}

/// The percentages of a builder as mathematical values.
pub open spec fn percentage_views(ps: Seq<(String, u8)>) -> Seq<(Seq<char>, u8)> {
    Seq::new(ps.len(), |i: int| (ps[i].0@, ps[i].1))
}

/// A rule builder as a mathematical value.
pub struct RuleBuilderView {
    pub percentages: Seq<(Seq<char>, u8)>,
    pub audience: Option<(Seq<char>, Seq<char>)>,
}

/// Builds rules from variant percentages and an optional audience.
#[derive(Clone, Debug)]
pub struct RuleBuilder {
    percentages: Vec<(String, u8)>,
    audience: Option<(String, String)>,
}

impl View for RuleBuilder {
    type V = RuleBuilderView;

    closed spec fn view(&self) -> RuleBuilderView {
        RuleBuilderView {
            percentages: percentage_views(self.percentages@),
            audience: match self.audience {
                Some((a, e)) => Some((a@, e@)),
                None => None,
            },
        }
    }
}

/// A rule as a mathematical value.
pub struct RuleView {
    pub buckets: Seq<BucketView>,
    pub audience: Option<Seq<char>>,
    pub expression: Option<Seq<char>>,
    pub reason: Reason,
}

/// Whether a rule view is one that building can produce: its buckets
/// partition `0..100`, an audience comes with its expression, and the reason
/// follows from the bucket count and the audience.
pub open spec fn rule_wf(r: RuleView) -> bool {
    &&& partitions(r.buckets)
    &&& r.audience is Some <==> r.expression is Some
    &&& r.reason == classify(r.buckets.len(), r.audience is Some)
}

/// The rule that a builder describes.
pub open spec fn built_rule(b: RuleBuilderView) -> RuleView {
    RuleView {
        buckets: laid_out(b.percentages),
        audience: match b.audience {
            Some(a) => Some(a.0),
            None => None,
        },
        expression: match b.audience {
            Some(a) => Some(a.1),
            None => None,
        },
        reason: classify(b.percentages.len(), b.audience is Some),
    }
}

/// What an audience expression gave when the host evaluated it.
#[derive(Clone, Debug, PartialEq)]
pub enum Outcome {
    /// It evaluated to this boolean.
    Boolean(bool),
    /// It evaluated to a value that is not a boolean.
    NotBoolean,
    /// Its evaluation failed, with this message.
    Failed(String),
}

/// Whether a rule applies, given the outcome of its expression: only the
/// boolean `true` applies; a failure is a targeting error.
pub open spec fn applicability(outcome: Outcome) -> Result<bool, FetaError> {
    match outcome {
        Outcome::Boolean(b) => Ok(b),
        Outcome::NotBoolean => Ok(false),
        Outcome::Failed(m) => Err(FetaError::Targeting(m)),
    }
}

/// A targeting rule: buckets that map a hash to a variant, optionally gated by
/// an audience expression.
#[derive(Clone, Debug)]
pub struct Rule {
    buckets: Vec<Bucket>,
    expression: Option<String>,
    audience: Option<String>,
    reason: Reason,
}

impl View for Rule {
    type V = RuleView;

    closed spec fn view(&self) -> RuleView {
        RuleView {
            buckets: bucket_views(self.buckets@),
            audience: opt_view(self.audience),
            expression: opt_view(self.expression),
            reason: self.reason,
        }
    }
}

impl Rule {
    /// Whether the rule is well formed.
    pub open spec fn wf(&self) -> bool {
        rule_wf(self@)
    }

    /// The reason that a decision through this rule carries.
    pub fn reason(&self) -> (r: Reason)
        ensures
            r == self@.reason,
    {
        self.reason
    }

    /// The name of the rule's audience, if it has one.
    pub fn audience(&self) -> (r: &Option<String>)
        ensures
            opt_view(*r) == self@.audience,
    {
        &self.audience
    }

    /// The text of the rule's audience expression, if it has one.
    pub fn expression(&self) -> (r: &Option<String>)
        ensures
            opt_view(*r) == self@.expression,
    {
        &self.expression
    }

    /// The buckets of the rule, in order.
    pub fn buckets(&self) -> (r: &Vec<Bucket>)
        ensures
            bucket_views(r@) == self@.buckets,
    {
        &self.buckets
    }

    /// Whether the rule applies, given the outcome of evaluating its audience
    /// expression. A rule without an expression always applies and the outcome
    /// is not read; otherwise only a boolean `true` applies, any other value
    /// does not, and a failed evaluation is a targeting error.
    pub fn is_applicable(&self, outcome: Outcome) -> (r: Result<bool, FetaError>)
        ensures
            self@.expression is None ==> r == Ok::<bool, FetaError>(true),
            self@.expression is Some ==> r == applicability(outcome),
    {
        match &self.expression {
            None => Ok(true),
            Some(_) => match outcome {
                Outcome::Boolean(b) => Ok(b),
                Outcome::NotBoolean => Ok(false),
                Outcome::Failed(m) => Err(FetaError::Targeting(m)),
            },
        }
    }

    /// The variant for a hash: the variant of the bucket holding `hash % 100`.
    pub fn get_variant(&self, hash: u32) -> (r: String)
        requires
            self.wf(),
        ensures
            r@ == variant_at(self@.buckets, (hash % 100) as int),
            0 <= bucket_index(self@.buckets, (hash % 100) as int) < self@.buckets.len(),
            covers(self@.buckets[bucket_index(self@.buckets, (hash % 100) as int)], (hash % 100) as int),
    {
        let m: u32 = hash % 100;
        let ghost bs = self@.buckets;
        let mut i: usize = 0;
        while i < self.buckets.len()
            invariant
                i <= self.buckets@.len(),
                bs == self@.buckets,
                bs.len() == self.buckets@.len(),
                rule_wf(self@),
                m < 100,
                m == hash % 100,
                forall|j: int| 0 <= j < i ==> !covers(#[trigger] bs[j], m as int),
                i > 0 ==> bs[i - 1].upper <= m,
            decreases self.buckets@.len() - i,
        {
            let b = &self.buckets[i];
            assert(bs[i as int] == b@);
            if b.lower_bound <= m && m < b.upper_bound {
                proof {
                    lemma_bucket_index_unique(bs, m as int, i as int);
                }
                return b.variant.clone();
            }
            proof {
                if i > 0 {
                    assert(bs[i - 1].upper == bs[i as int].lower);
                }
            }
            i = i + 1;
        }
        proof {
            assert(bs.last().upper == 100);
        }
        String::new()
    }

    /// The variant names that the rule's buckets use, in bucket order.
    pub fn referenced_variants(&self) -> (r: Vec<String>)
        ensures
            r@.len() == self@.buckets.len(),
            forall|i: int| 0 <= i < r@.len() ==> #[trigger] r@[i]@ == self@.buckets[i].variant,
    {
        let mut r: Vec<String> = Vec::new();
        let mut i: usize = 0;
        while i < self.buckets.len()
            invariant
                i <= self.buckets@.len(),
                r@.len() == i,
                forall|j: int| 0 <= j < i ==> #[trigger] r@[j]@ == self@.buckets[j].variant,
            decreases self.buckets@.len() - i,
        {
            r.push(self.buckets[i].variant.clone());
            i = i + 1;
        }
        r
    }
}

impl RuleBuilder {
    /// Creates a builder with no variants and no audience.
    pub fn new() -> (r: Self)
        ensures
            r@.percentages == Seq::<(Seq<char>, u8)>::empty(),
            r@.audience is None,
    {
        let r = RuleBuilder { percentages: Vec::new(), audience: None };
        assert(r@.percentages =~= Seq::<(Seq<char>, u8)>::empty());
        r
    }

    /// Adds a variant with the given percentage after those already added.
    pub fn variant(self, variant: &str, percentage: u8) -> (r: Self)
        ensures
            r@.percentages == self@.percentages.push((variant@, percentage)),
            r@.audience == self@.audience,
    {
        let RuleBuilder { mut percentages, audience } = self;
        percentages.push((variant.to_owned(), percentage));
        let r = RuleBuilder { percentages, audience };
        assert(r@.percentages =~= self@.percentages.push((variant@, percentage)));
        r
    }

    /// Gates the rule by an audience: its name and its expression text.
    pub fn audience(self, audience: &str, expression: &str) -> (r: Self)
        ensures
            r@.percentages == self@.percentages,
            r@.audience == Some((audience@, expression@)),
    {
        RuleBuilder {
            percentages: self.percentages,
            audience: Some((audience.to_owned(), expression.to_owned())),
        }
    }

    /// Builds the rule. Each variant gets a bucket as wide as its percentage,
    /// starting where the previous one ended and the first at 0; the reason
    /// follows from the bucket count and the audience.
    ///
    /// `compiled` is what the expression compiler said of the audience
    /// expression: `Err` with its message when the expression does not
    /// compile. It is read only when the builder has an audience.
    ///
    /// Fails with a configuration error when there are no variants or the
    /// percentages do not sum to exactly 100, and otherwise with a targeting
    /// error when the audience expression did not compile.
    pub fn build(self, compiled: Result<(), String>) -> (r: Result<Rule, FetaError>)
        ensures
            !valid_percentages(self@.percentages) ==> r matches Err(FetaError::Configuration(_)),
            valid_percentages(self@.percentages) && self@.audience is Some && compiled is Err
                ==> r == Err::<Rule, FetaError>(FetaError::Targeting(compiled->Err_0)),
            valid_percentages(self@.percentages) && (self@.audience is None || compiled is Ok)
                ==> (r matches Ok(rule) && rule.wf() && rule@ == built_rule(self@)),
    {
        let ghost ps = self@.percentages;
        let mut bound: u32 = 0;
        let mut buckets: Vec<Bucket> = Vec::new();
        let mut i: usize = 0;
        while i < self.percentages.len()
            invariant
                i <= self.percentages@.len(),
                ps == self@.percentages,
                ps.len() == self.percentages@.len(),
                bound == prefix_sum(ps, i as int),
                bound <= 100,
                buckets@.len() == i,
                bucket_views(buckets@) == laid_out(ps).take(i as int),
            decreases self.percentages@.len() - i,
        {
            let (variant, percentage) = &self.percentages[i];
            assert(ps[i as int] == (variant@, *percentage));
            let upper: u32 = bound + *percentage as u32;
            if upper > 100 {
                proof {
                    lemma_prefix_sum_monotone(ps, i + 1, ps.len() as int);
                }
                return Err(FetaError::Configuration("invalid variant configuration".to_owned()));
            }
            let ghost before = buckets@;
            let bucket = Bucket { variant: variant.clone(), lower_bound: bound, upper_bound: upper };
            assert(bucket@ == laid_out(ps)[i as int]);
            buckets.push(bucket);
            assert(bucket_views(buckets@) =~= laid_out(ps).take(i + 1)) by {
                assert(before.len() == i);
                assert(buckets@ == before.push(bucket));
                assert forall|k: int| 0 <= k < i implies bucket_views(buckets@)[k] == laid_out(
                    ps,
                ).take(i + 1)[k] by {
                    assert(buckets@[k] == before[k]);
                    assert(bucket_views(before)[k] == laid_out(ps).take(i as int)[k]);
                }
            }
            bound = upper;
            i = i + 1;
        }
        assert(laid_out(ps).take(ps.len() as int) =~= laid_out(ps));
        if buckets.len() == 0 || bound != 100 {
            return Err(FetaError::Configuration("invalid variant configuration".to_owned()));
        }
        let reason = if buckets.len() == 1 {
            Reason::Static
        } else {
            Reason::Split
        };
        match self.audience {
            None => {
                let rule = Rule { buckets, expression: None, audience: None, reason };
                proof {
                    lemma_layout_partitions(ps);
                }
                Ok(rule)
            },
            Some((audience, expression)) => {
                match compiled {
                    Err(message) => Err(FetaError::Targeting(message)),
                    Ok(()) => {
                        let reason = match reason {
                            Reason::Static => Reason::Match,
                            _ => Reason::MatchSplit,
                        };
                        let rule = Rule {
                            buckets,
                            expression: Some(expression),
                            audience: Some(audience),
                            reason,
                        };
                        proof {
                            lemma_layout_partitions(ps);
                        }
                        Ok(rule)
                    },
                }
            },
        }
    }
}

impl Default for RuleBuilder {
    /// Creates a builder with no variants and no audience.
    fn default() -> (r: Self)
        ensures
            r@.percentages == Seq::<(Seq<char>, u8)>::empty(),
            r@.audience is None,
    {
        RuleBuilder::new()
    }
}

/// A rule split evenly between two variants sends hashes whose remainder
/// modulo 100 is below 50 to the first and the others to the second; a hash
/// of 100 or more wraps around.
pub proof fn lemma_even_split(a: Seq<char>, b: Seq<char>, hash: u32)
    ensures
        valid_percentages(seq![(a, 50u8), (b, 50u8)]),
        variant_at(laid_out(seq![(a, 50u8), (b, 50u8)]), (hash % 100) as int) == if hash % 100
            < 50 {
            a
        } else {
            b
        },
{
    let ps = seq![(a, 50u8), (b, 50u8)];
    assert(prefix_sum(ps, 0) == 0);
    assert(prefix_sum(ps, 1) == 50);
    assert(prefix_sum(ps, 2) == 100);
    lemma_layout_partitions(ps);
    let bs = laid_out(ps);
    let x = (hash % 100) as int;
    if x < 50 {
        lemma_bucket_index_unique(bs, x, 0);
    } else {
        lemma_bucket_index_unique(bs, x, 1);
    }
}

} // verus!
