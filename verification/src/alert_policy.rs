//! Alert policies: a condition and the targets to notify, each written inline
//! or referring to a document by name.

use vstd::prelude::*;
use crate::alert_condition::AlertConditionDoc;
use crate::alert_notification_target::AlertNotificationTargetDoc;
use crate::common::{Kind, Metadata, path_or, opt_view, unwrap_path};
use crate::document::Document;
use crate::errors::{ErrorView, ParserError, verr, error_if};
use crate::name_map::NameMap;
use crate::text::{decimal, indexed, join, join3};
use crate::validation_context::ValidationContext;

verus! {

/// An alert policy document.
#[derive(Debug, PartialEq)]
pub struct AlertPolicyDoc {
    pub kind: Option<Kind>,
    pub metadata: Metadata,
    pub spec: AlertPolicySpec,
}

/// The condition of a policy, by reference or inline.
#[derive(Debug, PartialEq)]
pub enum AlertCondition {
    Reference(AlertConditionRef),
    Inline(Box<AlertConditionDoc>),
}

/// A reference to an alert condition document by name.
#[derive(Debug, PartialEq)]
pub struct AlertConditionRef {
    pub condition_ref: String,
}

/// A target of a policy, by reference or inline.
#[derive(Debug, PartialEq)]
pub enum NotificationTarget {
    Reference(NotificationTargetRef),
    Inline(AlertNotificationTargetDoc),
}

/// A reference to an alert notification target document by name.
#[derive(Debug, PartialEq)]
pub struct NotificationTargetRef {
    pub target_ref: String,
}

/// What an alert policy specifies.
#[derive(Debug, PartialEq)]
pub struct AlertPolicySpec {
    pub description: Option<String>,
    pub alert_when_no_data: bool,
    pub alert_when_resolved: bool,
    pub alert_when_breaching: bool,
    pub conditions: Vec<AlertCondition>,
    pub notification_targets: Vec<NotificationTarget>,
}

/// The errors of the condition of a policy whose spec is at `path`.
pub open spec fn condition_errors(c: AlertCondition, path: Seq<char>, docs: NameMap<Document>) -> Seq<ErrorView> {
    match c {
        AlertCondition::Reference(r) => match docs.lookup(r.condition_ref@) {
            Some(Document::AlertCondition(d)) => d.errors(path),
            Some(_) => seq![verr(path + ".conditions[0].targetRef"@,
                "Condition reference `"@ + r.condition_ref@ + "` wrong type."@)],
            None => seq![verr(path + ".conditions[0].targetRef"@,
                "Condition reference `"@ + r.condition_ref@ + "` not found."@)],
        },
        AlertCondition::Inline(d) => d.errors(path + ".conditions.[0]"@),
    }
}

/// The errors of the `i`-th target of a policy whose spec is at `path`.
pub open spec fn target_errors(t: NotificationTarget, i: nat, path: Seq<char>, docs: NameMap<Document>) -> Seq<ErrorView> {
    match t {
        NotificationTarget::Reference(r) => match docs.lookup(r.target_ref@) {
            Some(Document::AlertNotificationTarget(d)) => d.errors(path),
            Some(_) => seq![verr(path + ".notificationTargets["@ + decimal(i) + "].targetRef"@,
                "Condition reference `"@ + r.target_ref@ + "` is wrong kind."@)],
            None => seq![verr(path + ".notificationTargets["@ + decimal(i) + "].targetRef"@,
                "Notification target reference `"@ + r.target_ref@ + "` not found."@)],
        },
        NotificationTarget::Inline(d) => d.spec.errors(path + ".notificationTargets["@ + decimal(i) + "]"@),
    }
}

/// The errors of the first `n` targets.
pub open spec fn targets_errors(ts: Seq<NotificationTarget>, n: nat, path: Seq<char>, docs: NameMap<Document>) -> Seq<ErrorView>
    decreases n,
{
    if n == 0 {
        Seq::empty()
    } else {
        targets_errors(ts, (n - 1) as nat, path, docs) + target_errors(ts[n - 1], (n - 1) as nat, path, docs)
    }
}

impl AlertPolicySpec {
    /// The policy has a condition to look at (the rules read the first one).
    pub open spec fn validatable(&self) -> bool {
        self.conditions.len() > 0
    }

    /// Whether the policy has a condition to look at.
    pub fn is_validatable(&self) -> (res: bool)
        ensures
            res == self.validatable(),
    {
        self.conditions.len() > 0
    }

    /// The errors of a policy spec at `path`: it has exactly one condition,
    /// which must be valid (or refer to a valid alert condition document),
    /// and at least one target, each valid (or referring to a valid target
    /// document).
    pub open spec fn errors(&self, path: Seq<char>, docs: NameMap<Document>) -> Seq<ErrorView> {
        error_if(self.conditions.len() != 1, verr(path + ".condition"@, "Condition must contain exactly one item."@))
            + condition_errors(self.conditions[0], path, docs)
            + error_if(self.notification_targets.len() == 0,
                verr(path + ".notificationTargets"@, "Notification targets must not be empty."@))
            + targets_errors(self.notification_targets@, self.notification_targets.len() as nat, path, docs)
    }

    /// Records the errors of the policy spec at `path`.
    pub fn validate(&self, path: &str, document_map: &NameMap<Document>, ctx: &mut ValidationContext)
        requires
            self.validatable(),
        ensures
            final(ctx)@ == old(ctx)@ + self.errors(path@, *document_map),
    {
        if self.conditions.len() != 1 {
            ctx.push(ParserError::validation(join(path, ".condition"), "Condition must contain exactly one item."));
        }
        let ghost after_count = ctx@;
        match &self.conditions[0] {
            AlertCondition::Reference(reference) => {
                let reference = &reference.condition_ref;
                match document_map.get(reference.as_str()) {
                    Some(document) => match document {
                        Document::AlertCondition(alert_condition_doc) => {
                            alert_condition_doc.validate(Some(path), ctx);
                        },
                        _ => {
                            ctx.push(ParserError::validation(
                                join(path, ".conditions[0].targetRef"),
                                join3("Condition reference `", reference.as_str(), "` wrong type.").as_str(),
                            ));
                        },
                    },
                    None => {
                        ctx.push(ParserError::validation(
                            join(path, ".conditions[0].targetRef"),
                            join3("Condition reference `", reference.as_str(), "` not found.").as_str(),
                        ));
                    },
                }
            },
            AlertCondition::Inline(inline_condition) => {
                inline_condition.validate(Some(join(path, ".conditions.[0]").as_str()), ctx);
            },
        }
        assert(ctx@ =~= after_count + condition_errors(self.conditions[0], path@, *document_map));
        if self.notification_targets.len() == 0 {
            ctx.push(ParserError::validation(join(path, ".notificationTargets"), "Notification targets must not be empty."));
        }
        let ghost before_targets = ctx@;
        let n = self.notification_targets.len();
        let mut i: usize = 0;
        while i < n
            invariant
                n == self.notification_targets.len(),
                i <= n,
                ctx@ == before_targets + targets_errors(self.notification_targets@, i as nat, path@, *document_map),
            decreases n - i,
        {
            let ghost before = ctx@;
            match &self.notification_targets[i] {
                NotificationTarget::Reference(reference) => {
                    let reference = &reference.target_ref;
                    match document_map.get(reference.as_str()) {
                        Some(document) => match document {
                            Document::AlertNotificationTarget(alert_notification) => {
                                alert_notification.validate(Some(path), ctx);
                            },
                            _ => {
                                ctx.push(ParserError::validation(
                                    indexed(path, ".notificationTargets[", i, "].targetRef"),
                                    join3("Condition reference `", reference.as_str(), "` is wrong kind.").as_str(),
                                ));
                            },
                        },
                        None => {
                            ctx.push(ParserError::validation(
                                indexed(path, ".notificationTargets[", i, "].targetRef"),
                                join3("Notification target reference `", reference.as_str(), "` not found.").as_str(),
                            ));
                        },
                    }
                },
                NotificationTarget::Inline(inline_target) => {
                    inline_target.spec.validate(indexed(path, ".notificationTargets[", i, "]").as_str(), ctx);
                },
            }
            assert(ctx@ =~= before + target_errors(self.notification_targets@[i as int], i as nat, path@, *document_map));
            assert(ctx@ =~= before_targets + targets_errors(self.notification_targets@, (i + 1) as nat, path@, *document_map));
            i = i + 1;
        }
        assert(ctx@ =~= old(ctx)@ + self.errors(path@, *document_map));
    }
}

impl AlertPolicyDoc {
    /// The document has a condition to look at.
    pub open spec fn validatable(&self) -> bool {
        self.spec.validatable()
    }

    /// The errors of a policy document at `path`: its kind must be
    /// `AlertPolicy`, then those of its spec.
    pub open spec fn errors(&self, path: Seq<char>, docs: NameMap<Document>) -> Seq<ErrorView> {
        error_if(self.kind != Some(Kind::AlertPolicy), verr(path + ".kind"@, "Expected kind to be AlertPolicy."@))
            + self.spec.errors(path + ".spec"@, docs)
    }

    /// Records the errors of the document at `path` (`AlertPolicy` by default).
    pub fn validate(&self, path: Option<&str>, document_map: &NameMap<Document>, ctx: &mut ValidationContext)
        requires
            self.validatable(),
        ensures
            final(ctx)@ == old(ctx)@ + self.errors(path_or(opt_view(path), "AlertPolicy"@), *document_map),
    {
        let path = unwrap_path(path, "AlertPolicy");
        if !matches!(self.kind, Some(Kind::AlertPolicy)) {
            ctx.push(ParserError::validation(join(path, ".kind"), "Expected kind to be AlertPolicy."));
        }
        self.spec.validate(join(path, ".spec").as_str(), document_map, ctx);
        assert(ctx@ =~= old(ctx)@ + self.errors(path@, *document_map));
    }
}

} // verus!
