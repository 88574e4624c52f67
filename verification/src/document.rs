//! Documents of every kind, and the validation of a document against the
//! documents that it may refer to.

use vstd::prelude::*;
use vstd::string::*;
use crate::alert_condition::{AlertConditionDoc, AlertConditionSpec};
use crate::alert_notification_target::{AlertNotificationTargetDoc, AlertNotificationTargetSpec};
use crate::alert_policy::{AlertPolicyDoc, AlertPolicySpec};
use crate::common::{Kind, Metadata};
use crate::data_source::{DataSourceDoc, DataSourceSpec};
use crate::errors::{ErrorView, ParserError, verr};
use crate::name_map::NameMap;
use crate::service::{ServiceDoc, ServiceSpec};
use crate::sli::{SLIDoc, SLISpec};
use crate::slo::{SLODoc, SLOSpec, errors_of};
use crate::text::str_ends_with;
use crate::validation_context::ValidationContext;

verus! {

/// A document of any kind.
#[derive(Debug, PartialEq)]
pub enum Document {
    DataSource(DataSourceDoc),
    Slo(SLODoc),
    Sli(SLIDoc),
    AlertPolicy(AlertPolicyDoc),
    AlertCondition(AlertConditionDoc),
    AlertNotificationTarget(AlertNotificationTargetDoc),
    Service(ServiceDoc),
    InvalidKind,
}

/// The spec of a document, of the kind that the document declares.
#[derive(Debug, PartialEq)]
pub enum Spec {
    DataSource(DataSourceSpec),
    Slo(SLOSpec),
    Sli(SLISpec),
    AlertPolicy(AlertPolicySpec),
    AlertCondition(AlertConditionSpec),
    AlertNotificationTarget(AlertNotificationTargetSpec),
    Service(ServiceSpec),
}

/// The api version of a document is supported: it ends with `v1`.
pub open spec fn supported_version(api_version: Seq<char>) -> bool {
    api_version.len() >= 2 && api_version.subrange(api_version.len() - 2, api_version.len() as int) == "v1"@
}

impl Spec {
    /// The kind of document that the spec belongs to.
    pub open spec fn kind(&self) -> Kind {
        match self {
            Spec::DataSource(_) => Kind::DataSource,
            Spec::Slo(_) => Kind::Slo,
            Spec::Sli(_) => Kind::Sli,
            Spec::AlertPolicy(_) => Kind::AlertPolicy,
            Spec::AlertCondition(_) => Kind::AlertCondition,
            Spec::AlertNotificationTarget(_) => Kind::AlertNotificationTarget,
            Spec::Service(_) => Kind::Service,
        }
    }
}

impl Document {
    /// The document has what the rules look at, its references resolved in
    /// `docs`: an SLO an objective, and a condition in each of its alert
    /// policies; a policy a condition; where an SLO has time windows, one.
    pub open spec fn validatable(&self, docs: NameMap<Document>) -> bool {
        match self {
            Document::Slo(d) => d.validatable(docs),
            Document::AlertPolicy(d) => d.validatable(),
            _ => true,
        }
    }

    /// Whether the document has what the rules look at, references resolved
    /// in `docs`.
    pub fn is_validatable(&self, docs: &NameMap<Document>) -> (res: bool)
        ensures
            res == self.validatable(*docs),
    {
        match self {
            Document::Slo(d) => d.spec.is_validatable(docs),
            Document::AlertPolicy(d) => d.spec.is_validatable(),
            _ => true,
        }
    }

    /// The document of `metadata` and `spec`, its kind that of the spec.
    pub open spec fn assembled(metadata: Metadata, spec: Spec) -> Document {
        match spec {
            Spec::DataSource(s) => Document::DataSource(DataSourceDoc { kind: Some(Kind::DataSource), metadata, spec: s }),
            Spec::Slo(s) => Document::Slo(SLODoc { kind: Some(Kind::Slo), metadata, spec: s }),
            Spec::Sli(s) => Document::Sli(SLIDoc { kind: Some(Kind::Sli), metadata, spec: s }),
            Spec::AlertPolicy(s) => Document::AlertPolicy(AlertPolicyDoc { kind: Some(Kind::AlertPolicy), metadata, spec: s }),
            Spec::AlertCondition(s) => Document::AlertCondition(AlertConditionDoc { kind: Some(Kind::AlertCondition), metadata, spec: s }),
            Spec::AlertNotificationTarget(s) => Document::AlertNotificationTarget(AlertNotificationTargetDoc {
                kind: Some(Kind::AlertNotificationTarget),
                metadata,
                spec: s,
            }),
            Spec::Service(s) => Document::Service(ServiceDoc { kind: Some(Kind::Service), metadata, spec: s }),
        }
    }

    /// Refuses a document whose api version is not supported, naming `path`.
    pub fn check_api_version(api_version: &str, path: &str) -> (res: Result<(), ParserError>)
        ensures
            res is Ok <==> supported_version(api_version@),
            res matches Err(e) ==> e@ == verr(path@, "Currently only v1 of the spec is supported"@),
    {
        proof { reveal_strlit("v1"); }
        if !str_ends_with(api_version, "v1") {
            return Err(ParserError::validation(String::from_str(path), "Currently only v1 of the spec is supported"));
        }
        Ok(())
    }

    /// The name and the document of a declared api version, metadata and
    /// spec read from `path`; refused when the api version is not supported.
    pub fn parse(api_version: &str, metadata: Metadata, spec: Spec, path: &str) -> (res: Result<(String, Document), ParserError>)
        ensures
            res is Ok <==> supported_version(api_version@),
            res matches Err(e) ==> e@ == verr(path@, "Currently only v1 of the spec is supported"@),
            res matches Ok((name, doc)) ==> name@ == metadata.name@ && doc == Document::assembled(metadata, spec),
    {
        Document::check_api_version(api_version, path)?;
        let name = metadata.name.clone();
        let doc = match spec {
            Spec::DataSource(s) => Document::DataSource(DataSourceDoc { kind: Some(Kind::DataSource), metadata, spec: s }),
            Spec::Slo(s) => Document::Slo(SLODoc { kind: Some(Kind::Slo), metadata, spec: s }),
            Spec::Sli(s) => Document::Sli(SLIDoc { kind: Some(Kind::Sli), metadata, spec: s }),
            Spec::AlertPolicy(s) => Document::AlertPolicy(AlertPolicyDoc { kind: Some(Kind::AlertPolicy), metadata, spec: s }),
            Spec::AlertCondition(s) => Document::AlertCondition(AlertConditionDoc { kind: Some(Kind::AlertCondition), metadata, spec: s }),
            Spec::AlertNotificationTarget(s) => Document::AlertNotificationTarget(AlertNotificationTargetDoc {
                kind: Some(Kind::AlertNotificationTarget),
                metadata,
                spec: s,
            }),
            Spec::Service(s) => Document::Service(ServiceDoc { kind: Some(Kind::Service), metadata, spec: s }),
        };
        Ok((name, doc))
    }

    /// The errors of a document, references resolved in `docs`. Each kind is
    /// validated at its default path; a standalone indicator reports its
    /// first error.
    pub open spec fn errors(&self, docs: NameMap<Document>) -> Seq<ErrorView> {
        match self {
            Document::DataSource(d) => d.errors(Seq::empty()),
            Document::Slo(d) => d.errors(Seq::empty(), docs),
            Document::Sli(d) => errors_of(d.check(false, None)),
            Document::AlertPolicy(d) => d.errors("AlertPolicy"@, docs),
            Document::AlertCondition(d) => d.errors("AlertCondition"@),
            Document::AlertNotificationTarget(d) => d.errors(Seq::empty()),
            Document::Service(d) => d.errors(),
            Document::InvalidKind => seq![verr("None"@, "Couldn't match kind"@)],
        }
    }

    /// Records the errors of the document; references are resolved in
    /// `document_map`.
    pub fn validate(&self, document_map: &NameMap<Document>, ctx: &mut ValidationContext)
        requires
            self.validatable(*document_map),
        ensures
            final(ctx)@ == old(ctx)@ + self.errors(*document_map),
    {
        match self {
            Document::DataSource(data_source_doc) => data_source_doc.validate(None, ctx),
            Document::Slo(slodoc) => slodoc.validate(None, document_map, ctx),
            Document::Sli(slidoc) => {
                if let Err(e) = slidoc.validate(false, None) {
                    ctx.push(e.into_parser_error());
                }
            },
            Document::AlertPolicy(alert_policy_doc) => alert_policy_doc.validate(None, document_map, ctx),
            Document::AlertCondition(alert_condition_doc) => alert_condition_doc.validate(None, ctx),
            Document::AlertNotificationTarget(alert_notification_target_doc) => alert_notification_target_doc.validate(None, ctx),
            Document::Service(service_doc) => service_doc.validate(ctx),
            Document::InvalidKind => {
                ctx.push(ParserError::validation(String::from_str("None"), "Couldn't match kind"));
            },
        }
        assert(ctx@ =~= old(ctx)@ + self.errors(*document_map));
    }
}

} // verus!
