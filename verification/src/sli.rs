//! Service level indicators (SLIs).

use vstd::prelude::*;
use vstd::string::*;
use crate::common::{Kind, Metadata, path_or, opt_view, unwrap_path};
use crate::errors::{ErrorView, ValidationError, verr, verr_of};
use crate::text::join;

verus! {

/// An indicator document, standing alone or written inline in an SLO.
#[derive(Debug, PartialEq)]
pub struct SLIDoc {
    pub kind: Option<Kind>,
    pub metadata: Metadata,
    pub spec: SLISpec,
}

/// What an indicator measures: a threshold metric or a ratio metric.
#[derive(Debug, PartialEq)]
pub struct SLISpec {
    pub description: Option<String>,
    pub threshold_metric: Option<ThresholdMetric>,
    pub ratio_metric: Option<RatioMetric>,
}

/// A metric compared with a threshold.
#[derive(Debug, PartialEq)]
pub struct ThresholdMetric {
    pub metric_source: MetricSource,
}

/// A ratio of metrics: good or bad events over the total, or a raw ratio.
#[derive(Debug, PartialEq)]
pub struct RatioMetric {
    pub counter: Option<bool>,
    pub good: Option<MetricSource>,
    pub bad: Option<MetricSource>,
    pub total: Option<MetricSource>,
    pub raw_type: Option<RawType>,
    pub raw: Option<MetricSource>,
}

/// Where a metric comes from: a data source by reference, or a type.
#[derive(Debug, PartialEq)]
pub struct MetricSource {
    pub metric_source_ref: Option<String>,
    pub type_: Option<String>,
    pub spec: Option<serde_yaml::Value>,
}

/// Whether a raw ratio counts successes or failures.
#[derive(Debug, Clone, Copy, PartialEq, Eq, Structural)]
pub enum RawType {
    Success,
    Failure,
}

/// The first error found, in order.
pub open spec fn first_of(a: Option<ErrorView>, b: Option<ErrorView>) -> Option<ErrorView> {
    if a is Some { a } else { b }
}

/// The error `e` where `cond` holds, else none.
pub open spec fn fails_if(cond: bool, e: ErrorView) -> Option<ErrorView> {
    if cond { Some(e) } else { None }
}

/// How a check that reports its first error came out, viewed.
pub open spec fn outcome(res: Result<(), ValidationError>) -> Option<ErrorView> {
    match res {
        Ok(_) => None,
        Err(e) => Some(verr_of(e)),
    }
}

impl MetricSource {
    /// The first error of a metric source at `path`: it needs a type or a reference.
    pub open spec fn check(&self, path: Seq<char>) -> Option<ErrorView> {
        fails_if(
            self.metric_source_ref is None && self.type_ is None,
            verr(path + ".metricSourceRef"@, "Must specify one of type or metricSourceRef."@),
        )
    }

    /// Reports the first error of the metric source at `path`.
    pub fn validate(&self, path: &str) -> (res: Result<(), ValidationError>)
        ensures
            outcome(res) == self.check(path@),
    {
        if self.metric_source_ref.is_none() && self.type_.is_none() {
            return Err(ValidationError::new(join(path, ".metricSourceRef"), "Must specify one of type or metricSourceRef."));
        }
        Ok(())
    }
}

impl ThresholdMetric {
    /// The first error of a threshold metric at `path`: that of its source.
    pub open spec fn check(&self, path: Seq<char>) -> Option<ErrorView> {
        self.metric_source.check(path + ".metricSource"@)
    }

    /// Reports the first error of the threshold metric at `path`.
    pub fn validate(&self, path: &str) -> (res: Result<(), ValidationError>)
        ensures
            outcome(res) == self.check(path@),
    {
        self.metric_source.validate(join(path, ".metricSource").as_str())?;
        Ok(())
    }
}

impl RatioMetric {
    /// The first error of a ratio metric at `path`: a raw ratio excludes good,
    /// bad and total; good excludes bad; good or bad needs total; total needs
    /// good or bad; a raw ratio needs its raw type.
    pub open spec fn check(&self, path: Seq<char>) -> Option<ErrorView> {
        let good_or_bad = self.good is Some || self.bad is Some;
        first_of(
            fails_if(self.raw is Some && (good_or_bad || self.total is Some),
                verr(path + ".raw"@, "Cannot specify raw with good, bad, or total."@)),
        first_of(
            fails_if(self.good is Some && self.bad is Some,
                verr(path + ".good"@, "Cannot specify both good and bad."@)),
        first_of(
            fails_if(good_or_bad && self.total is None,
                verr(path + ".good"@, "Must specify total when using good or bad."@)),
        first_of(
            fails_if(self.total is Some && !good_or_bad,
                verr(path + ".total"@, "Must specify good or bad when using total."@)),
            fails_if(self.raw is Some && self.raw_type is None,
                verr(path + ".rawType"@, "Must specify rawType when using raw."@)),
        ))))
    }

    /// Reports the first error of the ratio metric at `path`.
    pub fn validate(&self, path: &str) -> (res: Result<(), ValidationError>)
        ensures
            outcome(res) == self.check(path@),
    {
        if self.raw.is_some() && (self.good.is_some() || self.bad.is_some() || self.total.is_some()) {
            return Err(ValidationError::new(join(path, ".raw"), "Cannot specify raw with good, bad, or total."));
        }
        if self.good.is_some() && self.bad.is_some() {
            return Err(ValidationError::new(join(path, ".good"), "Cannot specify both good and bad."));
        }
        if (self.good.is_some() || self.bad.is_some()) && self.total.is_none() {
            return Err(ValidationError::new(join(path, ".good"), "Must specify total when using good or bad."));
        }
        if self.total.is_some() && (self.good.is_none() && self.bad.is_none()) {
            return Err(ValidationError::new(join(path, ".total"), "Must specify good or bad when using total."));
        }
        if self.raw.is_some() && self.raw_type.is_none() {
            return Err(ValidationError::new(join(path, ".rawType"), "Must specify rawType when using raw."));
        }
        Ok(())
    }
}

impl RatioMetric {
    /// Whether validating the ratio metric warns that its counter is ignored:
    /// it passes its rules and is a raw ratio that also says whether it
    /// counts.
    pub fn counter_ignored(&self) -> (res: bool)
        ensures
            res == (self.raw is Some && self.counter is Some && forall|p: Seq<char>| #[trigger] self.check(p) is None),
    {
        let passes = !(self.raw.is_some() && (self.good.is_some() || self.bad.is_some() || self.total.is_some()))
            && !(self.good.is_some() && self.bad.is_some())
            && !((self.good.is_some() || self.bad.is_some()) && self.total.is_none())
            && !(self.total.is_some() && (self.good.is_none() && self.bad.is_none()))
            && !(self.raw.is_some() && self.raw_type.is_none());
        proof {
            if !passes {
                assert(self.check(Seq::empty()) is Some);
            }
        }
        passes && self.raw.is_some() && self.counter.is_some()
    }
}

impl SLISpec {
    /// The indicator measures a threshold metric.
    pub open spec fn spec_is_threshold_metric(&self) -> bool {
        self.threshold_metric is Some
    }

    /// Whether the indicator measures a threshold metric.
    pub fn is_threshold_metric(&self) -> (res: bool)
        ensures
            res == self.spec_is_threshold_metric(),
    {
        self.threshold_metric.is_some()
    }

    /// The first error of an indicator spec at `path`: it needs exactly one of
    /// a threshold metric and a ratio metric, then the first error of that
    /// metric (both are reported under `path.ratioMetric`).
    pub open spec fn check(&self, path: Seq<char>) -> Option<ErrorView> {
        first_of(
            fails_if(self.threshold_metric is Some && self.ratio_metric is Some,
                verr(path + ".thresholdMetric"@, "Cannot specify both thresholdMetric and ratioMetric."@)),
        first_of(
            fails_if(self.threshold_metric is None && self.ratio_metric is None,
                verr(path + ".thresholdMetric"@, "Must specify either thresholdMetric or ratioMetric."@)),
        first_of(
            match self.threshold_metric { Some(t) => t.check(path + ".ratioMetric"@), None => None },
            match self.ratio_metric { Some(r) => r.check(path + ".ratioMetric"@), None => None },
        )))
    }

    /// Reports the first error of the indicator spec at `path`.
    pub fn validate(&self, path: &str) -> (res: Result<(), ValidationError>)
        ensures
            outcome(res) == self.check(path@),
    {
        if self.threshold_metric.is_some() && self.ratio_metric.is_some() {
            return Err(ValidationError::new(join(path, ".thresholdMetric"), "Cannot specify both thresholdMetric and ratioMetric."));
        }
        if self.threshold_metric.is_none() && self.ratio_metric.is_none() {
            return Err(ValidationError::new(join(path, ".thresholdMetric"), "Must specify either thresholdMetric or ratioMetric."));
        }
        if let Some(threshold_metric) = &self.threshold_metric {
            threshold_metric.validate(join(path, ".ratioMetric").as_str())?;
        }
        if let Some(ratio_metric) = &self.ratio_metric {
            ratio_metric.validate(join(path, ".ratioMetric").as_str())?;
        }
        Ok(())
    }
}

impl SLIDoc {
    /// The first error of an indicator: an inline indicator must not have a
    /// kind and a standalone one must; then the first error of its spec at
    /// `path` (`SLI.spec` by default).
    pub open spec fn check(&self, is_inline: bool, path: Option<Seq<char>>) -> Option<ErrorView> {
        if is_inline && self.kind is Some {
            Some(verr("kind"@, "Inline SLI must not have a kind."@))
        } else if !is_inline && self.kind is None {
            Some(verr("kind"@, "SLI must have a kind."@))
        } else {
            self.spec.check(path_or(path, "SLI.spec"@))
        }
    }

    /// Reports the first error of the indicator.
    pub fn validate(&self, is_inline: bool, path: Option<&str>) -> (res: Result<(), ValidationError>)
        ensures
            outcome(res) == self.check(is_inline, opt_view(path)),
    {
        if is_inline {
            if self.kind.is_some() {
                return Err(ValidationError::new(String::from_str("kind"), "Inline SLI must not have a kind."));
            }
        } else if self.kind.is_none() {
            return Err(ValidationError::new(String::from_str("kind"), "SLI must have a kind."));
        }
        self.spec.validate(unwrap_path(path, "SLI.spec"))
    }
}

} // verus!
