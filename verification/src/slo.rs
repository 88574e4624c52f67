//! Service level objectives (SLOs): the rules that tie an SLO to its
//! indicator, time window, objectives and alert policies.

use vstd::prelude::*;
use crate::alert_policy::AlertPolicyDoc;
use crate::common::{BudgetingMethod, DurationShorthand, Kind, Metadata, path_or, opt_view, unwrap_path};
use crate::document::Document;
use crate::errors::{ErrorView, ParserError, verr, error_if};
use crate::name_map::NameMap;
use crate::objective::{Objective, first_error};
use crate::sli::{SLIDoc, outcome};
use crate::text::{blank, decimal, indexed, is_blank, join, join3, two_fields, fields};
use crate::validation_context::ValidationContext;

verus! {

/// A reference to an alert policy document by name.
#[derive(Debug, PartialEq)]
pub struct AlertPolicyRef {
    pub alert_policy_ref: String,
}

/// An alert policy of an SLO, inline or by reference.
#[derive(Debug, PartialEq)]
pub enum AlertPolicy {
    Inline(Box<AlertPolicyDoc>),
    Reference(AlertPolicyRef),
}

/// An SLO document.
#[derive(Debug, PartialEq)]
pub struct SLODoc {
    pub kind: Option<Kind>,
    pub metadata: Metadata,
    pub spec: SLOSpec,
}

/// What an SLO specifies.
#[derive(Debug, PartialEq)]
pub struct SLOSpec {
    pub description: Option<String>,
    pub service: String,
    pub indicator: Option<SLIDoc>,
    pub indicator_ref: Option<String>,
    pub time_window: Option<Vec<TimeWindow>>,
    pub budgeting_method: BudgetingMethod,
    pub objectives: Vec<Objective>,
    pub alert_policies: Option<Vec<AlertPolicy>>,
}

/// The time window of an SLO: rolling, or aligned to a calendar.
#[derive(Debug, PartialEq)]
pub struct TimeWindow {
    pub duration: DurationShorthand,
    pub calendar: Option<CalendarDetails>,
    pub is_rolling: bool,
}

/// Where a calendar-aligned window starts.
#[derive(Debug, PartialEq)]
pub struct CalendarDetails {
    pub start_time: String,
    pub time_zone: String,
}

/// A rolling window of a document that does not say.
pub fn default_is_rolling() -> (res: bool)
    ensures
        res,
{
    true
}

/// The error that a check reports, if any, as a sequence.
pub open spec fn errors_of(e: Option<ErrorView>) -> Seq<ErrorView> {
    match e {
        Some(e) => seq![e],
        None => Seq::empty(),
    }
}

impl TimeWindow {
    /// The errors of a window at `path`: a rolling window has no calendar,
    /// a calendar-aligned one has one.
    pub open spec fn errors(&self, path: Seq<char>) -> Seq<ErrorView> {
        error_if(self.is_rolling && self.calendar is Some,
            verr(path + ".calendar"@, "Calendar details can only be specified for Calendar Aligned time windows."@))
            + error_if(!self.is_rolling && self.calendar is None,
            verr(path + ".calendar"@, "Calendar details must be specified for Calendar Aligned time windows."@))
    }

    /// Records the errors of the window at `path`.
    pub fn validate(&self, path: &str, ctx: &mut ValidationContext)
        ensures
            final(ctx)@ == old(ctx)@ + self.errors(path@),
    {
        if self.is_rolling && self.calendar.is_some() {
            ctx.push(ParserError::validation(join(path, ".calendar"), "Calendar details can only be specified for Calendar Aligned time windows."));
        }
        if !self.is_rolling && self.calendar.is_none() {
            ctx.push(ParserError::validation(join(path, ".calendar"), "Calendar details must be specified for Calendar Aligned time windows."));
        }
        assert(ctx@ =~= old(ctx)@ + self.errors(path@));
    }
}

/// The errors of the `i`-th alert policy of an SLO whose spec is at `path`.
pub open spec fn policy_errors(p: AlertPolicy, i: nat, path: Seq<char>, docs: NameMap<Document>) -> Seq<ErrorView> {
    match p {
        AlertPolicy::Inline(d) => d.errors(path + ".alertPolicies["@ + decimal(i) + "]"@, docs),
        AlertPolicy::Reference(r) => match docs.lookup(r.alert_policy_ref@) {
            Some(Document::AlertPolicy(d)) => d.errors(path, docs),
            Some(_) => seq![verr(path + ".alertPolicies["@ + decimal(i) + "]"@,
                "Alert policy reference `"@ + r.alert_policy_ref@ + "` wrong kind."@)],
            None => seq![verr(path + ".alertPolicy["@ + decimal(i) + "]"@,
                "Alert policy reference `"@ + r.alert_policy_ref@ + "` not found."@)],
        },
    }
}

/// The errors of the first `n` alert policies.
pub open spec fn policies_errors(ps: Seq<AlertPolicy>, n: nat, path: Seq<char>, docs: NameMap<Document>) -> Seq<ErrorView>
    decreases n,
{
    if n == 0 {
        Seq::empty()
    } else {
        policies_errors(ps, (n - 1) as nat, path, docs) + policy_errors(ps[n - 1], (n - 1) as nat, path, docs)
    }
}

/// The errors of the first `n` objectives, each at its own index.
pub open spec fn objectives_errors(os: Seq<Objective>, n: nat, budgeting_method: BudgetingMethod, is_composite: bool, path: Seq<char>, docs: NameMap<Document>) -> Seq<ErrorView>
    decreases n,
{
    if n == 0 {
        Seq::empty()
    } else {
        objectives_errors(os, (n - 1) as nat, budgeting_method, is_composite, path, docs)
            + errors_of(os[n - 1].check(budgeting_method, Some(&docs), is_composite,
                path + ".objectives["@ + decimal((n - 1) as nat) + "]"@))
    }
}

/// Six errors appended one after the other.
proof fn lemma_concat_six(
    s0: Seq<ErrorView>, s1: Seq<ErrorView>, s2: Seq<ErrorView>, s3: Seq<ErrorView>,
    s4: Seq<ErrorView>, s5: Seq<ErrorView>, s6: Seq<ErrorView>,
    a: Seq<ErrorView>, b: Seq<ErrorView>, c: Seq<ErrorView>,
    d: Seq<ErrorView>, e: Seq<ErrorView>, f: Seq<ErrorView>,
)
    requires
        s1 == s0 + a,
        s2 == s1 + b,
        s3 == s2 + c,
        s4 == s3 + d,
        s5 == s4 + e,
        s6 == s5 + f,
    ensures
        s6 == s0 + (a + b + c + d + e + f),
{
    assert(s6 =~= s0 + (a + b + c + d + e + f));
}

/// The policy has a condition to look at: written inline, or as the alert
/// policy document that its reference resolves to in `docs`.
pub open spec fn policy_validatable(p: AlertPolicy, docs: NameMap<Document>) -> bool {
    match p {
        AlertPolicy::Inline(d) => d.validatable(),
        AlertPolicy::Reference(r) => docs.lookup(r.alert_policy_ref@) matches Some(Document::AlertPolicy(d)) ==> d.validatable(),
    }
}

/// Every alert policy has a condition to look at.
pub open spec fn policies_validatable(ps: Seq<AlertPolicy>, docs: NameMap<Document>) -> bool {
    forall|i: int| 0 <= i < ps.len() ==> policy_validatable(#[trigger] ps[i], docs)
}

impl SLOSpec {
    /// An SLO is composite when it has more than one objective.
    pub open spec fn spec_is_composite(&self) -> bool {
        self.objectives.len() > 1
    }

    /// Whether the SLO is composite: it has more than one objective.
    pub fn is_composite(&self) -> (res: bool)
        ensures
            res == self.spec_is_composite(),
    {
        self.objectives.len() > 1
    }

    /// The SLO has an objective and, where it has time windows, a window to
    /// look at, and each of its alert policies (inline, or resolved in `docs`)
    /// has a condition.
    pub open spec fn validatable(&self, docs: NameMap<Document>) -> bool {
        &&& self.objectives.len() > 0
        &&& (self.time_window matches Some(w) ==> w.len() > 0)
        &&& (self.alert_policies matches Some(ps) ==> policies_validatable(ps@, docs))
    }

    /// Whether the SLO has an objective, a time window where it has time
    /// windows, and a condition in each alert policy, references resolved in
    /// `docs`.
    pub fn is_validatable(&self, docs: &NameMap<Document>) -> (res: bool)
        ensures
            res == self.validatable(*docs),
    {
        if self.objectives.len() == 0 {
            return false;
        }
        if let Some(w) = &self.time_window {
            if w.len() == 0 {
                return false;
            }
        }
        if let Some(ps) = &self.alert_policies {
            let mut i: usize = 0;
            while i < ps.len()
                invariant
                    self.alert_policies == Some(*ps),
                    i <= ps@.len(),
                    forall|j: int| 0 <= j < i ==> policy_validatable(#[trigger] ps@[j], *docs),
                decreases ps@.len() - i,
            {
                let ok = match &ps[i] {
                    AlertPolicy::Inline(d) => d.spec.is_validatable(),
                    AlertPolicy::Reference(r) => match docs.get(r.alert_policy_ref.as_str()) {
                        Some(Document::AlertPolicy(d)) => d.spec.is_validatable(),
                        _ => true,
                    },
                };
                assert(ok == policy_validatable(ps@[i as int], *docs));
                if !ok {
                    assert(!policy_validatable(ps@[i as int], *docs));
                    assert(!policies_validatable(ps@, *docs));
                    return false;
                }
                i = i + 1;
            }
        }
        true
    }

    /// The errors of the service at `path`: it must not be blank.
    pub open spec fn service_errors(&self, path: Seq<char>) -> Seq<ErrorView> {
        error_if(blank(self.service@), verr(path + ".service"@, "Service must be a non-empty string."@))
    }

    /// The errors of the budgeting method at `path`: it must be known.
    pub open spec fn budgeting_method_errors(&self, path: Seq<char>) -> Seq<ErrorView> {
        error_if(self.budgeting_method == BudgetingMethod::Unknown,
            verr(path + ".budgetingMethod"@, "Invalid budgeting method."@))
    }

    /// The errors of the indicator at `path`: a composite SLO has none at the
    /// top; any other SLO has exactly one of an inline indicator (valid as
    /// inline) and a reference to an indicator document (valid as standalone).
    pub open spec fn indicator_errors(&self, path: Seq<char>, is_composite: bool, docs: NameMap<Document>) -> Seq<ErrorView> {
        let both = fields(path, ".indicator"@, ".indicatorRef"@);
        if is_composite && (self.indicator is Some || self.indicator_ref is Some) {
            seq![verr(path + ".indicator"@, "indicator is not allowed for composite SLOs."@)]
        } else if !is_composite {
            match (self.indicator, self.indicator_ref) {
                (Some(_), Some(_)) => seq![verr(both, "Cannot define both indicator and indicatorRef."@)],
                (None, None) => seq![verr(both, "Must define either indicator or indicatorRef."@)],
                (Some(i), None) => errors_of(i.check(true, Some(path + ".indicator"@))),
                (None, Some(r)) => match docs.lookup(r@) {
                    Some(Document::Sli(d)) => errors_of(d.check(false, Some(path))),
                    _ => seq![verr(path + ".indicatorRef"@, "Indicator reference `"@ + r@ + "` not found."@)],
                },
            }
        } else {
            Seq::empty()
        }
    }

    /// The errors of the time window at `path`: exactly one window, and the
    /// first one valid.
    pub open spec fn time_window_errors(&self, path: Seq<char>) -> Seq<ErrorView> {
        match self.time_window {
            Some(w) => error_if(w.len() != 1, verr(path + ".timeWindow"@, "timeWindow must contain exactly one item."@))
                + w[0].errors(path + ".timeWindow[0]"@),
            None => Seq::empty(),
        }
    }

    /// The errors of the objectives at `path`: an SLO that is not composite
    /// has exactly one, whose error is reported at `path`; then each
    /// objective's error at its index.
    pub open spec fn objective_errors(&self, path: Seq<char>, is_composite: bool, docs: NameMap<Document>) -> Seq<ErrorView> {
        (if !is_composite {
            error_if(self.objectives.len() != 1, verr(path + ".objectives"@, "objectives must contain exactly one item."@))
                + errors_of(self.objectives[0].check(self.budgeting_method, Some(&docs), is_composite, path))
        } else {
            Seq::empty()
        }) + objectives_errors(self.objectives@, self.objectives.len() as nat, self.budgeting_method, is_composite, path, docs)
    }

    /// The errors of the alert policies at `path`.
    pub open spec fn alert_policy_errors(&self, path: Seq<char>, docs: NameMap<Document>) -> Seq<ErrorView> {
        match self.alert_policies {
            Some(ps) => policies_errors(ps@, ps.len() as nat, path, docs),
            None => Seq::empty(),
        }
    }

    /// The errors of an SLO spec at `path`, in the order: service, budgeting
    /// method, indicator, time window, objectives, alert policies.
    pub open spec fn errors(&self, path: Seq<char>, docs: NameMap<Document>) -> Seq<ErrorView> {
        let c = self.spec_is_composite();
        self.service_errors(path)
            + self.budgeting_method_errors(path)
            + self.indicator_errors(path, c, docs)
            + self.time_window_errors(path)
            + self.objective_errors(path, c, docs)
            + self.alert_policy_errors(path, docs)
    }

    fn validate_service(&self, path: &str, ctx: &mut ValidationContext)
        ensures
            final(ctx)@ == old(ctx)@ + self.service_errors(path@),
    {
        if is_blank(self.service.as_str()) {
            ctx.push(ParserError::validation(join(path, ".service"), "Service must be a non-empty string."));
        }
        assert(ctx@ =~= old(ctx)@ + self.service_errors(path@));
    }

    fn validate_budgeting_method(&self, path: &str, ctx: &mut ValidationContext)
        ensures
            final(ctx)@ == old(ctx)@ + self.budgeting_method_errors(path@),
    {
        if self.budgeting_method == BudgetingMethod::Unknown {
            ctx.push(ParserError::validation(join(path, ".budgetingMethod"), "Invalid budgeting method."));
        }
        assert(ctx@ =~= old(ctx)@ + self.budgeting_method_errors(path@));
    }

    fn validate_indicators(&self, path: &str, is_composite: bool, document_map: &NameMap<Document>, ctx: &mut ValidationContext)
        ensures
            final(ctx)@ == old(ctx)@ + self.indicator_errors(path@, is_composite, *document_map),
    {
        if is_composite && (self.indicator.is_some() || self.indicator_ref.is_some()) {
            ctx.push(ParserError::validation(join(path, ".indicator"), "indicator is not allowed for composite SLOs."));
            assert(ctx@ =~= old(ctx)@ + self.indicator_errors(path@, is_composite, *document_map));
            return;
        }
        if !is_composite {
            match (&self.indicator, &self.indicator_ref) {
                (Some(_), Some(_)) => {
                    ctx.push(ParserError::validation(two_fields(path, ".indicator", ".indicatorRef"), "Cannot define both indicator and indicatorRef."));
                },
                (None, None) => {
                    ctx.push(ParserError::validation(two_fields(path, ".indicator", ".indicatorRef"), "Must define either indicator or indicatorRef."));
                },
                (Some(indicator), None) => {
                    let p = join(path, ".indicator");
                    let r = indicator.validate(true, Some(p.as_str()));
                    if let Err(e) = r {
                        ctx.push(e.into_parser_error());
                    }
                },
                (None, Some(indicator_ref)) => {
                    match document_map.get(indicator_ref.as_str()) {
                        Some(Document::Sli(slidoc)) => {
                            let r = slidoc.validate(false, Some(path));
                            if let Err(e) = r {
                                ctx.push(e.into_parser_error());
                            }
                        },
                        _ => {
                            ctx.push(ParserError::validation(
                                join(path, ".indicatorRef"),
                                join3("Indicator reference `", indicator_ref.as_str(), "` not found.").as_str(),
                            ));
                        },
                    }
                },
            }
        }
        assert(ctx@ =~= old(ctx)@ + self.indicator_errors(path@, is_composite, *document_map));
    }

    fn validate_time_window(&self, path: &str, ctx: &mut ValidationContext)
        requires
            self.time_window matches Some(w) ==> w.len() > 0,
        ensures
            final(ctx)@ == old(ctx)@ + self.time_window_errors(path@),
    {
        if let Some(time_window) = &self.time_window {
            if time_window.len() != 1 {
                ctx.push(ParserError::validation(join(path, ".timeWindow"), "timeWindow must contain exactly one item."));
            }
            time_window[0].validate(join(path, ".timeWindow[0]").as_str(), ctx);
        }
        assert(ctx@ =~= old(ctx)@ + self.time_window_errors(path@));
    }

    fn validate_objectives(&self, path: &str, is_composite: bool, document_map: &NameMap<Document>, ctx: &mut ValidationContext)
        requires
            self.objectives.len() > 0,
        ensures
            final(ctx)@ == old(ctx)@ + self.objective_errors(path@, is_composite, *document_map),
    {
        if !is_composite {
            if self.objectives.len() != 1 {
                ctx.push(ParserError::validation(join(path, ".objectives"), "objectives must contain exactly one item."));
            }
            let r = self.objectives[0].validate(&self.budgeting_method, Some(document_map), is_composite, path);
            if let Err(e) = r {
                ctx.push(e);
            }
        }
        let ghost before = ctx@;
        assert(before =~= old(ctx)@ + (if !is_composite {
            error_if(self.objectives.len() != 1, verr(path@ + ".objectives"@, "objectives must contain exactly one item."@))
                + errors_of(self.objectives[0].check(self.budgeting_method, Some(document_map), is_composite, path@))
        } else {
            Seq::empty()
        }));
        let n = self.objectives.len();
        let mut i: usize = 0;
        while i < n
            invariant
                n == self.objectives.len(),
                i <= n,
                ctx@ == before + objectives_errors(self.objectives@, i as nat, self.budgeting_method, is_composite, path@, *document_map),
            decreases n - i,
        {
            let ghost prev = ctx@;
            let p = indexed(path, ".objectives[", i, "]");
            let r = self.objectives[i].validate(&self.budgeting_method, Some(document_map), is_composite, p.as_str());
            if let Err(e) = r {
                ctx.push(e);
            }
            assert(ctx@ =~= before + objectives_errors(self.objectives@, (i + 1) as nat, self.budgeting_method, is_composite, path@, *document_map));
            i = i + 1;
        }
        assert(ctx@ =~= old(ctx)@ + self.objective_errors(path@, is_composite, *document_map));
    }

    fn validate_alert_policy(&self, path: &str, document_map: &NameMap<Document>, ctx: &mut ValidationContext)
        requires
            self.alert_policies matches Some(ps) ==> policies_validatable(ps@, *document_map),
        ensures
            final(ctx)@ == old(ctx)@ + self.alert_policy_errors(path@, *document_map),
    {
        if let Some(alert_policy) = &self.alert_policies {
            let n = alert_policy.len();
            let mut i: usize = 0;
            while i < n
                invariant
                    n == alert_policy.len(),
                    i <= n,
                    policies_validatable(alert_policy@, *document_map),
                    ctx@ == old(ctx)@ + policies_errors(alert_policy@, i as nat, path@, *document_map),
                decreases n - i,
            {
                let ghost prev = ctx@;
                match &alert_policy[i] {
                    AlertPolicy::Inline(policy) => {
                        assert(policy_validatable(alert_policy@[i as int], *document_map));
                        policy.validate(Some(indexed(path, ".alertPolicies[", i, "]").as_str()), document_map, ctx);
                    },
                    AlertPolicy::Reference(policy_ref) => {
                        match document_map.get(policy_ref.alert_policy_ref.as_str()) {
                            Some(document) => match document {
                                Document::AlertPolicy(alert_policy_doc) => {
                                    assert(policy_validatable(alert_policy@[i as int], *document_map));
                                    alert_policy_doc.validate(Some(path), document_map, ctx);
                                },
                                _ => {
                                    ctx.push(ParserError::validation(
                                        indexed(path, ".alertPolicies[", i, "]"),
                                        join3("Alert policy reference `", policy_ref.alert_policy_ref.as_str(), "` wrong kind.").as_str(),
                                    ));
                                },
                            },
                            None => {
                                ctx.push(ParserError::validation(
                                    indexed(path, ".alertPolicy[", i, "]"),
                                    join3("Alert policy reference `", policy_ref.alert_policy_ref.as_str(), "` not found.").as_str(),
                                ));
                            },
                        }
                    },
                }
                assert(ctx@ =~= prev + policy_errors(alert_policy@[i as int], i as nat, path@, *document_map));
                assert(ctx@ =~= old(ctx)@ + policies_errors(alert_policy@, (i + 1) as nat, path@, *document_map));
                i = i + 1;
            }
        }
        assert(ctx@ =~= old(ctx)@ + self.alert_policy_errors(path@, *document_map));
    }

    /// Records the errors of the SLO spec at `path`; references are resolved
    /// in `document_map`.
    #[verifier::spinoff_prover]
    pub fn validate(&self, path: &str, document_map: &NameMap<Document>, ctx: &mut ValidationContext)
        requires
            self.validatable(*document_map),
        ensures
            final(ctx)@ == old(ctx)@ + self.errors(path@, *document_map),
    {
        let is_composite = self.is_composite();
        let ghost s0 = ctx@;
        self.validate_service(path, ctx);
        let ghost s1 = ctx@;
        self.validate_budgeting_method(path, ctx);
        let ghost s2 = ctx@;
        self.validate_indicators(path, is_composite, document_map, ctx);
        let ghost s3 = ctx@;
        self.validate_time_window(path, ctx);
        let ghost s4 = ctx@;
        self.validate_objectives(path, is_composite, document_map, ctx);
        let ghost s5 = ctx@;
        self.validate_alert_policy(path, document_map, ctx);
        proof {
            lemma_concat_six(s0, s1, s2, s3, s4, s5, ctx@,
                self.service_errors(path@),
                self.budgeting_method_errors(path@),
                self.indicator_errors(path@, is_composite, *document_map),
                self.time_window_errors(path@),
                self.objective_errors(path@, is_composite, *document_map),
                self.alert_policy_errors(path@, *document_map));
        }
    }
}

impl SLODoc {
    /// The document has what the rules look at, its references resolved in `docs`.
    pub open spec fn validatable(&self, docs: NameMap<Document>) -> bool {
        self.spec.validatable(docs)
    }

    /// The errors of an SLO document at `path`: a kind, where given, must be
    /// `SLO`; then those of its spec.
    pub open spec fn errors(&self, path: Seq<char>, docs: NameMap<Document>) -> Seq<ErrorView> {
        error_if(self.kind is Some && self.kind != Some(Kind::Slo), verr(path + ".kind"@, "Expected kind to be SLO."@))
            + self.spec.errors(path + ".spec"@, docs)
    }

    /// Records the errors of the document at `path` (the empty path by default).
    pub fn validate(&self, path: Option<&str>, document_map: &NameMap<Document>, ctx: &mut ValidationContext)
        requires
            self.validatable(*document_map),
        ensures
            final(ctx)@ == old(ctx)@ + self.errors(path_or(opt_view(path), Seq::empty()), *document_map),
    {
        let path = unwrap_path(path, "");
        proof { reveal_strlit(""); }
        if self.kind.is_some() && !matches!(self.kind, Some(Kind::Slo)) {
            ctx.push(ParserError::validation(join(path, ".kind"), "Expected kind to be SLO."));
        }
        self.spec.validate(join(path, ".spec").as_str(), document_map, ctx);
        assert(ctx@ =~= old(ctx)@ + self.errors(path@, *document_map));
    }
}

} // verus!
