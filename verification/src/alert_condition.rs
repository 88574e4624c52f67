//! Alert conditions.

use vstd::prelude::*;
use crate::common::{DurationShorthand, Kind, Metadata, Operator, path_or, opt_view, unwrap_path};
use crate::errors::{ErrorView, ParserError, verr, error_if};
use crate::number::Number;
use crate::text::{blank, is_blank, join};
use crate::validation_context::ValidationContext;

verus! {

/// An alert condition document.
#[derive(Debug, PartialEq)]
pub struct AlertConditionDoc {
    pub kind: Option<Kind>,
    pub metadata: Metadata,
    pub spec: AlertConditionSpec,
}

/// The kind of a condition.
#[derive(Debug, Clone, Copy, PartialEq, Eq, Structural)]
pub enum CondtionKind {
    Burnrate,
}

/// The kind of a condition that does not say its kind.
pub fn default_kind() -> (res: CondtionKind)
    ensures
        res == CondtionKind::Burnrate,
{
    CondtionKind::Burnrate
}

/// When a condition fires.
#[derive(Debug, PartialEq)]
pub struct Condition {
    pub kind: CondtionKind,
    pub op: Option<Operator>,
    pub threshold: Option<Number>,
    pub lookback_window: Option<DurationShorthand>,
    pub alert_after: Option<DurationShorthand>,
}

/// What an alert condition specifies.
#[derive(Debug, PartialEq)]
pub struct AlertConditionSpec {
    pub description: Option<String>,
    pub severity: String,
    pub condition: Condition,
}

impl Condition {
    /// The condition that the fields of a document give: the kind defaults to
    /// burn rate, and a burn-rate condition that does not say after how long
    /// it alerts alerts after `0m`.
    pub fn from_fields(
        kind: Option<CondtionKind>,
        op: Option<Operator>,
        threshold: Option<Number>,
        lookback_window: Option<DurationShorthand>,
        alert_after: Option<DurationShorthand>,
    ) -> (res: Condition)
        ensures
            res.kind == (match kind { Some(k) => k, None => CondtionKind::Burnrate }),
            res.op == op,
            res.threshold == threshold,
            res.lookback_window == lookback_window,
            alert_after is Some ==> res.alert_after == alert_after,
            alert_after is None ==> (res.kind == CondtionKind::Burnrate <==> res.alert_after is Some),
            alert_after is None ==> (res.alert_after matches Some(d) ==> d.as_view() == "0m"@),
    {
        let kind = match kind {
            Some(k) => k,
            None => default_kind(),
        };
        let alert_after = match alert_after {
            Some(a) => Some(a),
            None => match kind {
                CondtionKind::Burnrate => Some(DurationShorthand(String::from_str("0m"))),
            },
        };
        Condition { kind, op, threshold, lookback_window, alert_after }
    }

    /// The errors of a condition under `path`: the operator must be known,
    /// and a burn-rate condition needs an operator, a threshold, a lookback
    /// window and an alert-after duration.
    pub open spec fn errors(&self, path: Seq<char>) -> Seq<ErrorView> {
        let p = path + ".condition"@;
        error_if(self.op == Some(Operator::Invalid), verr(p + ".op"@, "Invalid operator specified."@))
            + match self.kind {
                CondtionKind::Burnrate =>
                    error_if(self.op is None, verr(p + ".op"@, "Operator must be specified for burnrate condition."@))
                    + error_if(self.threshold is None, verr(p + ".threshold"@, "Threshold must be specified for burnrate condition."@))
                    + error_if(self.lookback_window is None, verr(p + ".lookbackWindow"@, "lookbackWindow must be specified for burnrate condition."@))
                    + error_if(self.alert_after is None, verr(p + ".alertAfter"@, "alertAfter must be specified for burnrate condition."@)),
            }
    }

    /// Records the errors of the condition under `path`.
    pub fn validate(&self, path: &str, ctx: &mut ValidationContext)
        ensures
            final(ctx)@ == old(ctx)@ + self.errors(path@),
    {
        let ghost base = path@;
        let path = join(path, ".condition");
        if matches!(self.op, Some(Operator::Invalid)) {
            ctx.push(ParserError::validation(join(path.as_str(), ".op"), "Invalid operator specified."));
        }
        match self.kind {
            CondtionKind::Burnrate => {
                if self.op.is_none() {
                    ctx.push(ParserError::validation(join(path.as_str(), ".op"), "Operator must be specified for burnrate condition."));
                }
                if self.threshold.is_none() {
                    ctx.push(ParserError::validation(join(path.as_str(), ".threshold"), "Threshold must be specified for burnrate condition."));
                }
                if self.lookback_window.is_none() {
                    ctx.push(ParserError::validation(join(path.as_str(), ".lookbackWindow"), "lookbackWindow must be specified for burnrate condition."));
                }
                if self.alert_after.is_none() {
                    ctx.push(ParserError::validation(join(path.as_str(), ".alertAfter"), "alertAfter must be specified for burnrate condition."));
                }
            },
        }
        assert(ctx@ =~= old(ctx)@ + self.errors(base));
    }
}

impl AlertConditionSpec {
    /// The errors of an alert condition at `path`: the severity must not be
    /// blank, then those of the condition.
    pub open spec fn errors(&self, path: Seq<char>) -> Seq<ErrorView> {
        error_if(blank(self.severity@), verr(path + ".severity"@, "Severity must be a non-empty string."@))
            + self.condition.errors(path)
    }

    /// Records the errors of the alert condition at `path`.
    pub fn validate(&self, path: &str, ctx: &mut ValidationContext)
        ensures
            final(ctx)@ == old(ctx)@ + self.errors(path@),
    {
        if is_blank(self.severity.as_str()) {
            ctx.push(ParserError::validation(join(path, ".severity"), "Severity must be a non-empty string."));
        }
        self.condition.validate(path, ctx);
        assert(ctx@ =~= old(ctx)@ + self.errors(path@));
    }
}

impl AlertConditionDoc {
    /// The errors of an alert condition document at `path`: its kind must be
    /// `AlertCondition`, then those of its spec.
    pub open spec fn errors(&self, path: Seq<char>) -> Seq<ErrorView> {
        error_if(self.kind != Some(Kind::AlertCondition), verr(path + ".kind"@, "Expected kind to be AlertCondition."@))
            + self.spec.errors(path + ".spec"@)
    }

    /// Records the errors of the document at `path` (`AlertCondition` by default).
    pub fn validate(&self, path: Option<&str>, ctx: &mut ValidationContext)
        ensures
            final(ctx)@ == old(ctx)@ + self.errors(path_or(opt_view(path), "AlertCondition"@)),
    {
        let path = unwrap_path(path, "AlertCondition");
        if !matches!(self.kind, Some(Kind::AlertCondition)) {
            ctx.push(ParserError::validation(join(path, ".kind"), "Expected kind to be AlertCondition."));
        }
        self.spec.validate(join(path, ".spec").as_str(), ctx);
        assert(ctx@ =~= old(ctx)@ + self.errors(path@));
    }
}

} // verus!
