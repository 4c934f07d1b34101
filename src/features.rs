//! The registry: every configured feature, built at once, decided by name.
use vstd::prelude::*;

use crate::config;
use crate::context::Context;
use crate::decision::{DecisionBuilder, DecisionView, Reason};
use crate::error::FetaError;
use crate::feature::{
    built_feature, config_builds, config_error, configured_builder, feature_wf, first_step, Feature,
    FeatureView, Step,
};
use crate::hash::{calculate, feature_hash, hashable};
use crate::value::Value;

verus! {

/// The position of the feature with the given name.
pub open spec fn feature_index(fs: Seq<FeatureView>, name: Seq<char>) -> int {
    choose|i: int| 0 <= i < fs.len() && #[trigger] fs[i].name == name
}

/// Whether a registry has a feature with the given name.
pub open spec fn registered(fs: Seq<FeatureView>, name: Seq<char>) -> bool {
    exists|i: int| 0 <= i < fs.len() && #[trigger] fs[i].name == name
}

/// Whether no two features of a registry share a name.
pub open spec fn names_unique(fs: Seq<FeatureView>) -> bool {
    forall|i: int, j: int| 0 <= i < j < fs.len() ==> #[trigger] fs[i].name != #[trigger] fs[j].name
}

/// The registry with `f` registered under its name: a feature of that name
/// replaced in place, or `f` added at the end.
pub open spec fn register(fs: Seq<FeatureView>, f: FeatureView) -> Seq<FeatureView> {
    if registered(fs, f.name) {
        fs.update(feature_index(fs, f.name), f)
    } else {
        fs.push(f)
    }
}

/// The views of a list of features.
pub open spec fn feature_views(fs: Seq<Feature>) -> Seq<FeatureView> {
    Seq::new(fs.len(), |i: int| fs[i]@)
}

/// Whether the first `n` configured features all build.
pub open spec fn all_build(cfg: config::Config, compiled: Seq<Vec<Result<(), String>>>, n: int) -> bool {
    forall|i: int|
        0 <= i < n ==> config_builds(
            (#[trigger] cfg.features@[i]).0@,
            cfg.features@[i].1,
            compiled[i]@,
        )
}

/// The registry made of the first `n` configured features, each registered
/// in turn under its name.
pub open spec fn configured_registry(cfg: config::Config, n: int) -> Seq<FeatureView>
    decreases n,
{
    if n <= 0 || n > cfg.features@.len() {
        Seq::empty()
    } else {
        register(
            configured_registry(cfg, n - 1),
            built_feature(configured_builder(cfg.features@[n - 1].0@, cfg.features@[n - 1].1)),
        )
    }
}

/// The decision for a feature name that is not registered.
pub open spec fn unregistered_decision(hash: u32, e: FetaError) -> DecisionView {
    DecisionView {
        hash,
        variant: Seq::empty(),
        reason: Reason::Error,
        value: Value::Null,
        audience: None,
        error: Some(e),
    }
}

/// A collection of features, at most one per name.
pub struct Features {
    features: Vec<Feature>,
}

impl View for Features {
    type V = Seq<FeatureView>;

    closed spec fn view(&self) -> Seq<FeatureView> {
        feature_views(self.features@)
    }
}

/// In a registry without repeated names, the feature found for a name is the
/// one that `feature_index` picks.
proof fn lemma_feature_index_unique(fs: Seq<FeatureView>, name: Seq<char>, i: int)
    requires
        names_unique(fs),
        0 <= i < fs.len(),
        fs[i].name == name,
    ensures
        registered(fs, name),
        feature_index(fs, name) == i,
{
    assert(registered(fs, name));
    let c = feature_index(fs, name);
    if c < i {
        assert(fs[c].name != fs[i].name);
    } else if c > i {
        assert(fs[i].name != fs[c].name);
    }
}

impl Features {
    /// Whether every feature is well formed and no two share a name.
    pub open spec fn wf(&self) -> bool {
        &&& names_unique(self@)
        &&& forall|i: int| 0 <= i < self@.len() ==> feature_wf(#[trigger] self@[i])
    }

    /// Finds the position of the feature with the given name.
    fn find(&self, name: &str) -> (r: Option<usize>)
        requires
            self.wf(),
        ensures
            match r {
                Some(i) => i < self@.len() && self@[i as int].name == name@ && feature_index(
                    self@,
                    name@,
                ) == i,
                None => !registered(self@, name@),
            },
    {
        let key = name.to_owned();
        let mut i: usize = 0;
        while i < self.features.len()
            invariant
                i <= self.features@.len(),
                self.wf(),
                key@ == name@,
                forall|j: int| 0 <= j < i ==> self@[j].name != name@,
            decreases self.features@.len() - i,
        {
            if *self.features[i].name() == key {
                proof {
                    lemma_feature_index_unique(self@, name@, i as int);
                }
                return Some(i);
            }
            i = i + 1;
        }
        None
    }

    /// The feature with the given name, if one is registered; the host uses it
    /// to resume a pending evaluation.
    pub fn get(&self, name: &str) -> (r: Option<&Feature>)
        requires
            self.wf(),
        ensures
            match r {
                Some(f) => registered(self@, name@) && f@ == self@[feature_index(self@, name@)]
                    && f.wf(),
                None => !registered(self@, name@),
            },
    {
        match self.find(name) {
            Some(i) => Some(&self.features[i]),
            None => None,
        }
    }

    /// Evaluates the named feature for a context: its first step, as
    /// [`Feature::decide`] gives it. A name that is not registered is decided
    /// at once as a request error, with the hash of that name and the user key,
    /// no variant and a `Null` value.
    pub fn decide(&self, feature: &str, ctx: &Context) -> (r: Step)
        requires
            self.wf(),
            hashable(feature@, ctx.user_key@),
        ensures
            registered(self@, feature@) ==> r@ == first_step(
                self@[feature_index(self@, feature@)],
                ctx.user_key@,
            ),
            !registered(self@, feature@) ==> (r matches Step::Decided(d) && d@ == unregistered_decision(
                feature_hash(feature@, ctx.user_key@),
                d.error->Some_0,
            ) && d.error matches Some(FetaError::Request(_))),
    {
        match self.find(feature) {
            Some(i) => {
                assert(self@[i as int] == self.features@[i as int]@);
                self.features[i].decide(ctx)
            },
            None => {
                let hash = calculate(feature, ctx.user_key.as_str());
                let message = "invalid feature: ".to_owned().concat(feature);
                Step::Decided(DecisionBuilder::new().hash(hash).error(FetaError::Request(message)))
            },
        }
    }

    /// Evaluates every feature for a context, each on its own: the name and
    /// first step of each, in registry order.
    pub fn decide_all(&self, ctx: &Context) -> (r: Vec<(String, Step)>)
        requires
            self.wf(),
            forall|i: int| 0 <= i < self@.len() ==> hashable(#[trigger] self@[i].name, ctx.user_key@),
        ensures
            r@.len() == self@.len(),
            forall|i: int|
                0 <= i < r@.len() ==> (#[trigger] r@[i]).0@ == self@[i].name && r@[i].1@
                    == first_step(self@[i], ctx.user_key@),
    {
        let mut r: Vec<(String, Step)> = Vec::new();
        let mut i: usize = 0;
        while i < self.features.len()
            invariant
                i <= self.features@.len(),
                self.wf(),
                forall|k: int| 0 <= k < self@.len() ==> hashable(#[trigger] self@[k].name, ctx.user_key@),
                r@.len() == i,
                forall|k: int|
                    0 <= k < i ==> (#[trigger] r@[k]).0@ == self@[k].name && r@[k].1@ == first_step(
                        self@[k],
                        ctx.user_key@,
                    ),
            decreases self.features@.len() - i,
        {
            let f = &self.features[i];
            assert(self@[i as int] == f@);
            r.push((f.name().clone(), f.decide(ctx)));
            i = i + 1;
        }
        r
    }

    /// Creates the registry from a configuration, all or nothing. `compiled`
    /// holds, for each configured feature in order, the expression compiler's
    /// verdicts on its audience rules' expressions.
    ///
    /// Each feature is built by [`Feature::from_config`] and registered under
    /// its name, replacing a feature of the same name. The first feature that
    /// does not build gives the error.
    pub fn from_config(cfg: &config::Config, compiled: &Vec<Vec<Result<(), String>>>) -> (r: Result<
        Self,
        FetaError,
    >)
        requires
            compiled@.len() == cfg.features@.len(),
            forall|i: int|
                0 <= i < compiled@.len() ==> (#[trigger] compiled@[i])@.len()
                    == cfg.features@[i].1.audience_rules@.len(),
        ensures
            r is Ok <==> all_build(*cfg, compiled@, cfg.features@.len() as int),
            r matches Ok(fs) ==> fs.wf() && fs@ == configured_registry(
                *cfg,
                cfg.features@.len() as int,
            ),
            r matches Err(e) ==> exists|k: int|
                0 <= k < cfg.features@.len() && all_build(*cfg, compiled@, k) && !config_builds(
                    (#[trigger] cfg.features@[k]).0@,
                    cfg.features@[k].1,
                    compiled@[k]@,
                ) && config_error(cfg.features@[k].1, compiled@[k]@, e),
    {
        let mut features: Vec<Feature> = Vec::new();
        let mut i: usize = 0;
        assert(feature_views(features@) =~= configured_registry(*cfg, 0));
        while i < cfg.features.len()
            invariant
                i <= cfg.features@.len(),
                compiled@.len() == cfg.features@.len(),
                forall|k: int|
                    0 <= k < compiled@.len() ==> (#[trigger] compiled@[k])@.len()
                        == cfg.features@[k].1.audience_rules@.len(),
                all_build(*cfg, compiled@, i as int),
                (Features { features }).wf(),
                feature_views(features@) == configured_registry(*cfg, i as int),
            decreases cfg.features@.len() - i,
        {
            let (name, fcfg) = &cfg.features[i];
            let f = match Feature::from_config(name.as_str(), fcfg, &compiled[i]) {
                Ok(f) => f,
                Err(e) => {
                    assert(!config_builds(cfg.features@[i as int].0@, cfg.features@[i as int].1, compiled@[i as int]@));
                    return Err(e);
                },
            };
            let ghost before = feature_views(features@);
            let registry = Features { features };
            let found = registry.find(name.as_str());
            features = registry.features;
            match found {
                Some(k) => {
                    features.set(k, f);
                },
                None => {
                    features.push(f);
                },
            }
            assert(feature_views(features@) =~= register(before, f@));
            proof {
                let fs = feature_views(features@);
                assert forall|p: int, q: int| 0 <= p < q < fs.len() implies #[trigger] fs[p].name
                    != #[trigger] fs[q].name by {
                    if p < before.len() && q < before.len() {
                        assert(before[p].name != before[q].name);
                    }
                }
                assert forall|p: int| 0 <= p < fs.len() implies feature_wf(#[trigger] fs[p]) by {
                    if p < before.len() && fs[p] == before[p] {
                        assert(feature_wf(before[p]));
                    }
                }
            }
            i = i + 1;
        }
        Ok(Features { features })
    }
}

impl Default for Features {
    /// Creates an empty registry.
    fn default() -> (r: Self)
        ensures
            r.wf(),
            r@ == Seq::<FeatureView>::empty(),
    {
        let r = Features { features: Vec::new() };
        assert(r@ =~= Seq::<FeatureView>::empty());
        r
    }
}

} // verus!
