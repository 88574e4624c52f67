//! Properties that span the library's functions.

use vstd::prelude::*;
use crate::alert_condition::{AlertConditionDoc, Condition, CondtionKind};
use crate::alert_policy::{AlertCondition, AlertPolicySpec, targets_errors, condition_errors};
use crate::common::{BudgetingMethod, Metadata};
use crate::document::{Document, Spec};
use crate::errors::{ErrorView, ParserError};
use crate::name_map::NameMap;
use crate::objective::Objective;
use crate::sli::{RatioMetric, SLIDoc};
use crate::text::decimal;
use crate::slo::{SLOSpec, objectives_errors, policies_errors};

verus! {

/// Two maps hold the same document under every name.
pub open spec fn same_lookups(m1: NameMap<Document>, m2: NameMap<Document>) -> bool {
    forall|k: Seq<char>| #[trigger] m1.lookup(k) == m2.lookup(k)
}

proof fn lemma_targets_errors_lookups(ts: Seq<crate::alert_policy::NotificationTarget>, n: nat, path: Seq<char>, m1: NameMap<Document>, m2: NameMap<Document>)
    requires
        same_lookups(m1, m2),
    ensures
        targets_errors(ts, n, path, m1) == targets_errors(ts, n, path, m2),
    decreases n,
{
    if n > 0 {
        lemma_targets_errors_lookups(ts, (n - 1) as nat, path, m1, m2);
    }
}

proof fn lemma_policy_spec_lookups(s: AlertPolicySpec, path: Seq<char>, m1: NameMap<Document>, m2: NameMap<Document>)
    requires
        same_lookups(m1, m2),
    ensures
        s.errors(path, m1) == s.errors(path, m2),
{
    lemma_targets_errors_lookups(s.notification_targets@, s.notification_targets.len() as nat, path, m1, m2);
    assert(condition_errors(s.conditions[0], path, m1) == condition_errors(s.conditions[0], path, m2));
}

proof fn lemma_objective_check_lookups(o: Objective, bm: BudgetingMethod, composite: bool, path: Seq<char>, m1: NameMap<Document>, m2: NameMap<Document>)
    requires
        same_lookups(m1, m2),
    ensures
        o.check(bm, Some(&m1), composite, path) == o.check(bm, Some(&m2), composite, path),
{
    assert(o.reference_check(Some(&m1), path) == o.reference_check(Some(&m2), path));
}

proof fn lemma_objectives_errors_lookups(os: Seq<Objective>, n: nat, bm: BudgetingMethod, composite: bool, path: Seq<char>, m1: NameMap<Document>, m2: NameMap<Document>)
    requires
        same_lookups(m1, m2),
    ensures
        objectives_errors(os, n, bm, composite, path, m1) == objectives_errors(os, n, bm, composite, path, m2),
    decreases n,
{
    if n > 0 {
        lemma_objectives_errors_lookups(os, (n - 1) as nat, bm, composite, path, m1, m2);
        lemma_objective_check_lookups(os[n - 1], bm, composite,
            path + ".objectives["@ + crate::text::decimal((n - 1) as nat) + "]"@, m1, m2);
    }
}

proof fn lemma_policies_errors_lookups(ps: Seq<crate::slo::AlertPolicy>, n: nat, path: Seq<char>, m1: NameMap<Document>, m2: NameMap<Document>)
    requires
        same_lookups(m1, m2),
    ensures
        policies_errors(ps, n, path, m1) == policies_errors(ps, n, path, m2),
    decreases n,
{
    if n > 0 {
        lemma_policies_errors_lookups(ps, (n - 1) as nat, path, m1, m2);
        let p = ps[n - 1];
        match p {
            crate::slo::AlertPolicy::Inline(d) => {
                lemma_policy_spec_lookups(d.spec,
                    path + ".alertPolicies["@ + crate::text::decimal((n - 1) as nat) + "]"@ + ".spec"@, m1, m2);
            },
            crate::slo::AlertPolicy::Reference(r) => {
                assert(m1.lookup(r.alert_policy_ref@) == m2.lookup(r.alert_policy_ref@));
                if let Some(Document::AlertPolicy(d)) = m1.lookup(r.alert_policy_ref@) {
                    lemma_policy_spec_lookups(d.spec, path + ".spec"@, m1, m2);
                }
            },
        }
    }
}

proof fn lemma_slo_spec_lookups(s: SLOSpec, path: Seq<char>, m1: NameMap<Document>, m2: NameMap<Document>)
    requires
        same_lookups(m1, m2),
    ensures
        s.errors(path, m1) == s.errors(path, m2),
{
    let c = s.spec_is_composite();
    assert(s.indicator_errors(path, c, m1) == s.indicator_errors(path, c, m2)) by {
        if let Some(r) = s.indicator_ref {
            assert(m1.lookup(r@) == m2.lookup(r@));
        }
    }
    lemma_objectives_errors_lookups(s.objectives@, s.objectives.len() as nat, s.budgeting_method, c, path, m1, m2);
    if s.objectives.len() > 0 {
        lemma_objective_check_lookups(s.objectives[0], s.budgeting_method, c, path, m1, m2);
    }
    assert(s.objective_errors(path, c, m1) == s.objective_errors(path, c, m2));
    if let Some(ps) = s.alert_policies {
        lemma_policies_errors_lookups(ps@, ps.len() as nat, path, m1, m2);
    }
    assert(s.alert_policy_errors(path, m1) == s.alert_policy_errors(path, m2));
}

/// The errors of a document depend on the other documents only through the
/// documents stored under each name: two maps that hold the same documents
/// under the same names (however they were filled, in whatever order) give
/// the same errors.
pub proof fn law_errors_depend_only_on_named_documents(d: Document, m1: NameMap<Document>, m2: NameMap<Document>)
    requires
        same_lookups(m1, m2),
    ensures
        d.errors(m1) == d.errors(m2),
{
    match d {
        Document::Slo(s) => lemma_slo_spec_lookups(s.spec, Seq::empty() + ".spec"@, m1, m2),
        Document::AlertPolicy(p) => lemma_policy_spec_lookups(p.spec, "AlertPolicy"@ + ".spec"@, m1, m2),
        _ => {},
    }
}

/// A document read from its metadata and spec carries the kind of its spec,
/// so its kind is never reported: its errors are those of its spec alone.
pub proof fn law_read_documents_have_their_kind(metadata: Metadata, spec: Spec, docs: NameMap<Document>)
    ensures
        ({
            let d = Document::assembled(metadata, spec);
            match spec {
                Spec::DataSource(s) => d.errors(docs) == crate::errors::error_if(
                    crate::text::blank(s.type_@),
                    crate::errors::verr(Seq::empty() + ".spec.type"@, "Type must be a non-empty string."@)),
                Spec::Slo(s) => d.errors(docs) == s.errors(Seq::empty() + ".spec"@, docs),
                Spec::Sli(s) => d.errors(docs) == crate::slo::errors_of(s.check("SLI.spec"@)),
                Spec::AlertPolicy(s) => d.errors(docs) == s.errors("AlertPolicy"@ + ".spec"@, docs),
                Spec::AlertCondition(s) => d.errors(docs) == s.errors("AlertCondition"@ + ".spec"@),
                Spec::AlertNotificationTarget(s) => d.errors(docs) == s.errors(Seq::empty() + ".spec"@),
                Spec::Service(_) => d.errors(docs) == Seq::<ErrorView>::empty(),
            }
        }),
{
    let d = Document::assembled(metadata, spec);
    match spec {
        Spec::DataSource(s) => assert(d.errors(docs) =~= crate::errors::error_if(
            crate::text::blank(s.type_@),
            crate::errors::verr(Seq::empty() + ".spec.type"@, "Type must be a non-empty string."@))),
        Spec::Slo(s) => assert(d.errors(docs) =~= s.errors(Seq::empty() + ".spec"@, docs)),
        Spec::AlertPolicy(s) => assert(d.errors(docs) =~= s.errors("AlertPolicy"@ + ".spec"@, docs)),
        Spec::AlertCondition(s) => assert(d.errors(docs) =~= s.errors("AlertCondition"@ + ".spec"@)),
        Spec::AlertNotificationTarget(s) => assert(d.errors(docs) =~= s.errors(Seq::empty() + ".spec"@)),
        Spec::Service(_) => assert(d.errors(docs) =~= Seq::<ErrorView>::empty()),
        _ => {},
    }
}

/// An objective that is not part of a composite SLO never consults the
/// indicators that references resolve to.
pub proof fn law_single_objectives_ignore_references(o: Objective, budgeting_method: BudgetingMethod, docs: NameMap<Document>, path: Seq<char>)
    ensures
        o.check(budgeting_method, Some(&docs), false, path) == o.check(budgeting_method, None, false, path),
{
}

/// A standalone indicator reports at most one error, the first that its
/// rules find, whatever the other documents are.
pub proof fn law_indicators_report_their_first_error(d: SLIDoc, docs: NameMap<Document>)
    ensures
        Document::Sli(d).errors(docs).len() <= 1,
        Document::Sli(d).errors(docs).len() == 1 <==> d.check(false, None) is Some,
{
}

/// The errors held after recording each of `es` in turn, one push at a
/// time, on top of the errors `start` (each push appends its error).
pub open spec fn recorded(start: Seq<ParserError>, es: Seq<ParserError>) -> Seq<ParserError>
    decreases es.len(),
{
    if es.len() == 0 {
        start
    } else {
        recorded(start, es.drop_last()).push(es.last())
    }
}

/// Recording errors only appends: whatever was held stays, in its order, and
/// the errors pushed follow in the order of the pushes, none dropped or
/// repeated. So a new context (which holds nothing) on which `e1, ..., en`
/// were pushed gives back exactly `e1, ..., en` from `result`, or `Ok` when
/// nothing was pushed.
pub proof fn law_pushed_errors_come_back_in_order(start: Seq<ParserError>, es: Seq<ParserError>)
    ensures
        recorded(start, es) == start + es,
        recorded(Seq::empty(), es) == es,
    decreases es.len(),
{
    if es.len() > 0 {
        law_pushed_errors_come_back_in_order(start, es.drop_last());
        assert(start + es =~= (start + es.drop_last()).push(es.last()));
        assert(Seq::<ParserError>::empty() + es =~= es);
        law_pushed_errors_come_back_in_order(Seq::empty(), es.drop_last());
        assert(Seq::<ParserError>::empty() + es.drop_last() =~= es.drop_last());
        assert(es.drop_last().push(es.last()) =~= es);
    }
}

/// The path of the `i`-th objective of an SLO spec at `path`.
pub open spec fn objective_path(path: Seq<char>, i: nat) -> Seq<char> {
    path + ".objectives["@ + decimal(i) + "]"@
}

/// An error that a sequence of errors holds stays in it when more errors are
/// appended, before or after.
proof fn lemma_contains_concat(a: Seq<ErrorView>, b: Seq<ErrorView>, e: ErrorView)
    ensures
        a.contains(e) ==> (a + b).contains(e),
        b.contains(e) ==> (a + b).contains(e),
{
    if a.contains(e) {
        let j = choose|j: int| 0 <= j < a.len() && a[j] == e;
        assert((a + b)[j] == e);
    }
    if b.contains(e) {
        let j = choose|j: int| 0 <= j < b.len() && b[j] == e;
        assert((a + b)[a.len() + j] == e);
    }
}

proof fn lemma_objectives_errors_contain(os: Seq<Objective>, n: nat, bm: BudgetingMethod, composite: bool, path: Seq<char>, docs: NameMap<Document>, i: nat, e: ErrorView)
    requires
        i < n <= os.len(),
        os[i as int].check(bm, Some(&docs), composite, objective_path(path, i)) == Some(e),
    ensures
        objectives_errors(os, n, bm, composite, path, docs).contains(e),
    decreases n,
{
    let prev = objectives_errors(os, (n - 1) as nat, bm, composite, path, docs);
    let last = crate::slo::errors_of(os[n - 1].check(bm, Some(&docs), composite, objective_path(path, (n - 1) as nat)));
    assert(objectives_errors(os, n, bm, composite, path, docs) == prev + last);
    if i == n - 1 {
        assert(last == seq![e]);
        assert(last[0] == e);
        assert(last.contains(e));
    } else {
        lemma_objectives_errors_contain(os, (n - 1) as nat, bm, composite, path, docs, i, e);
    }
    lemma_contains_concat(prev, last, e);
}

/// In a composite SLO (more than one objective), an objective that refers to
/// an indicator that the document map does not hold as an SLI is reported at
/// its index as not found, when it breaks no rule that needs no map: the
/// references of composite objectives are resolved in the map that the SLO
/// is validated with.
pub proof fn law_composite_objectives_resolve_references(s: SLOSpec, path: Seq<char>, docs: NameMap<Document>, i: nat, r: String)
    requires
        s.objectives.len() > 1,
        i < s.objectives.len(),
        s.objectives[i as int].indicator_ref == Some(r),
        !(docs.lookup(r@) matches Some(Document::Sli(_))),
        s.objectives[i as int].check(s.budgeting_method, None, true, objective_path(path, i)) is None,
    ensures
        s.errors(path, docs).contains(
            crate::errors::verr(objective_path(path, i) + ".indicatorRef"@, "Indicator reference `"@ + r@ + "` not found."@)),
{
    let o = s.objectives[i as int];
    let p = objective_path(path, i);
    let e = crate::errors::verr(p + ".indicatorRef"@, "Indicator reference `"@ + r@ + "` not found."@);
    assert(o.indicator is None);
    assert(o.reference_check(Some(&docs), p) == Some(e));
    assert(o.check(s.budgeting_method, Some(&docs), true, p) == Some(e));
    lemma_objectives_errors_contain(s.objectives@, s.objectives.len() as nat, s.budgeting_method, true, path, docs, i, e);
    let c = s.spec_is_composite();
    assert(c);
    let obj = s.objective_errors(path, c, docs);
    assert(obj == Seq::<ErrorView>::empty() + objectives_errors(s.objectives@, s.objectives.len() as nat, s.budgeting_method, true, path, docs));
    lemma_contains_concat(Seq::<ErrorView>::empty(), objectives_errors(s.objectives@, s.objectives.len() as nat, s.budgeting_method, true, path, docs), e);
    let before = s.service_errors(path) + s.budgeting_method_errors(path) + s.indicator_errors(path, c, docs) + s.time_window_errors(path);
    lemma_contains_concat(before, obj, e);
    lemma_contains_concat(before + obj, s.alert_policy_errors(path, docs), e);
}

/// A composite objective with an inline indicator (not a threshold metric)
/// and no reference, which passes its target, time-slice and operator rules,
/// fails with its indicator's first error as an inline indicator at
/// `path.indicator`, whatever map it is validated with.
pub proof fn law_composite_inline_indicators_are_validated(o: Objective, bm: BudgetingMethod, m: Option<&NameMap<Document>>, path: Seq<char>, i: SLIDoc)
    requires
        o.indicator == Some(i),
        o.indicator_ref is None,
        i.spec.threshold_metric is None,
        o.target_check(path) is None,
        o.timeslice_check(bm, path) is None,
        o.operators_check(path) is None,
        i.check(true, Some(path + ".indicator"@)) is Some,
    ensures
        o.check(bm, m, true, path) == i.check(true, Some(path + ".indicator"@)),
{
}

/// The errors of an alert policy whose condition is an inline condition
/// document `d` hold, right after the error on the number of conditions (if
/// any), exactly the errors of `d` at `path.conditions.[0]`; so a policy
/// with an invalid inline condition is never valid.
pub proof fn law_inline_conditions_are_validated(s: AlertPolicySpec, path: Seq<char>, docs: NameMap<Document>, d: AlertConditionDoc)
    requires
        s.conditions.len() > 0,
        s.conditions[0] == AlertCondition::Inline(Box::new(d)),
    ensures
        ({
            let k: int = if s.conditions.len() != 1 { 1 } else { 0 };
            let de = d.errors(path + ".conditions.[0]"@);
            &&& k + de.len() <= s.errors(path, docs).len()
            &&& s.errors(path, docs).subrange(k, k + de.len()) == de
            &&& de.len() > 0 ==> s.errors(path, docs).len() > 0
        }),
{
    let k: int = if s.conditions.len() != 1 { 1 } else { 0 };
    let de = d.errors(path + ".conditions.[0]"@);
    let head = crate::errors::error_if(s.conditions.len() != 1,
        crate::errors::verr(path + ".condition"@, "Condition must contain exactly one item."@));
    assert(head.len() == k);
    assert(condition_errors(s.conditions[0], path, docs) == de);
    let all = s.errors(path, docs);
    let tail = crate::errors::error_if(s.notification_targets.len() == 0,
        crate::errors::verr(path + ".notificationTargets"@, "Notification targets must not be empty."@))
        + targets_errors(s.notification_targets@, s.notification_targets.len() as nat, path, docs);
    assert(all =~= head + de + tail);
    assert(all.subrange(k, k + de.len()) =~= de);
}

/// A ratio metric that is not raw, with good or bad (not both) and no total,
/// fails with the error that it needs a total, reported at `path.good`.
pub proof fn law_good_or_bad_needs_total(m: RatioMetric, path: Seq<char>)
    requires
        m.raw is None,
        m.good is Some || m.bad is Some,
        !(m.good is Some && m.bad is Some),
        m.total is None,
    ensures
        m.check(path) == Some(crate::errors::verr(path + ".good"@, "Must specify total when using good or bad."@)),
{
}

/// A burn-rate condition without a threshold always has the error that it
/// needs one, whatever its operator, lookback window and alert-after.
pub proof fn law_burnrate_conditions_need_a_threshold(c: Condition, path: Seq<char>)
    requires
        c.kind == CondtionKind::Burnrate,
        c.threshold is None,
    ensures
        c.errors(path).contains(crate::errors::verr(path + ".condition"@ + ".threshold"@,
            "Threshold must be specified for burnrate condition."@)),
{
    let p = path + ".condition"@;
    let e = crate::errors::verr(p + ".threshold"@, "Threshold must be specified for burnrate condition."@);
    let a = crate::errors::error_if(c.op == Some(crate::common::Operator::Invalid),
        crate::errors::verr(p + ".op"@, "Invalid operator specified."@));
    let b = crate::errors::error_if(c.op is None,
        crate::errors::verr(p + ".op"@, "Operator must be specified for burnrate condition."@));
    let rest = crate::errors::error_if(c.lookback_window is None,
        crate::errors::verr(p + ".lookbackWindow"@, "lookbackWindow must be specified for burnrate condition."@))
        + crate::errors::error_if(c.alert_after is None,
        crate::errors::verr(p + ".alertAfter"@, "alertAfter must be specified for burnrate condition."@));
    assert(c.errors(path) =~= a + b + seq![e] + rest);
    assert(c.errors(path)[(a.len() + b.len()) as int] == e);
}

} // verus!
