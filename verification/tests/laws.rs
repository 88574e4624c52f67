use slo_slicer::alert_condition::{AlertConditionDoc, AlertConditionSpec, Condition};
use slo_slicer::alert_notification_target::{AlertNotificationTargetDoc, AlertNotificationTargetSpec};
use slo_slicer::alert_policy::{AlertCondition, AlertConditionRef, AlertPolicyDoc, AlertPolicySpec, NotificationTarget, NotificationTargetRef};
use slo_slicer::common::{BudgetingMethod, Kind, Metadata, Operator};
use slo_slicer::data_source::DataSourceSpec;
use slo_slicer::document::{Document, Spec};
use slo_slicer::errors::ParserError;
use slo_slicer::name_map::NameMap;
use slo_slicer::number::Number;
use slo_slicer::objective::Objective;
use slo_slicer::service::ServiceSpec;
use slo_slicer::sli::{SLIDoc, SLISpec};
use slo_slicer::validation_context::ValidationContext;

fn metadata(name: &str) -> Metadata {
    Metadata { name: name.to_string(), display_name: None, labels: None, annotations: None }
}

fn validation(path: &str, message: &str) -> ParserError {
    ParserError::Validation { path: path.to_string(), message: message.to_string() }
}

fn condition_doc(name: &str) -> Document {
    Document::AlertCondition(AlertConditionDoc {
        kind: Some(Kind::AlertCondition),
        metadata: metadata(name),
        spec: AlertConditionSpec {
            description: None,
            severity: "page".to_string(),
            condition: Condition::from_fields(None, None, None, None, None),
        },
    })
}

fn target_doc(name: &str) -> Document {
    Document::AlertNotificationTarget(AlertNotificationTargetDoc {
        kind: Some(Kind::AlertNotificationTarget),
        metadata: metadata(name),
        spec: AlertNotificationTargetSpec { description: None, target: "slack".to_string() },
    })
}

fn policy() -> Document {
    Document::AlertPolicy(AlertPolicyDoc {
        kind: Some(Kind::AlertPolicy),
        metadata: metadata("policy"),
        spec: AlertPolicySpec {
            description: None,
            alert_when_no_data: false,
            alert_when_resolved: false,
            alert_when_breaching: true,
            conditions: vec![AlertCondition::Reference(AlertConditionRef { condition_ref: "cond".to_string() })],
            notification_targets: vec![NotificationTarget::Reference(NotificationTargetRef { target_ref: "pager".to_string() })],
        },
    })
}

fn errors(doc: &Document, docs: &NameMap<Document>) -> Result<(), Vec<ParserError>> {
    assert!(doc.is_validatable(docs));
    let mut ctx = ValidationContext::new();
    doc.validate(docs, &mut ctx);
    ctx.result()
}

#[test]
fn errors_depend_only_on_the_named_documents() {
    let mut first = NameMap::new();
    first.insert("cond".to_string(), condition_doc("cond"));
    first.insert("pager".to_string(), target_doc("pager"));

    let mut second = NameMap::new();
    second.insert("pager".to_string(), target_doc("pager"));
    let mut rest = NameMap::new();
    rest.insert("cond".to_string(), condition_doc("old"));
    second.extend(rest);
    second.insert("cond".to_string(), condition_doc("cond"));

    let expected = Err(vec![
        validation("AlertPolicy.spec.spec.condition.op", "Operator must be specified for burnrate condition."),
        validation("AlertPolicy.spec.spec.condition.threshold", "Threshold must be specified for burnrate condition."),
        validation(
            "AlertPolicy.spec.spec.condition.lookbackWindow",
            "lookbackWindow must be specified for burnrate condition.",
        ),
    ]);
    assert_eq!(errors(&policy(), &first), expected);
    assert_eq!(errors(&policy(), &second), expected);
}

#[test]
fn read_documents_never_report_their_kind() {
    let docs = NameMap::new();
    let (_, service) = Document::parse("openslo/v1", metadata("svc"), Spec::Service(ServiceSpec { description: None }), "f").unwrap();
    assert_eq!(errors(&service, &docs), Ok(()));
    let (_, source) = Document::parse(
        "openslo/v1",
        metadata("ds"),
        Spec::DataSource(DataSourceSpec { description: None, type_: " ".to_string(), connection_details: None }),
        "f",
    )
    .unwrap();
    assert_eq!(errors(&source, &docs), Err(vec![validation(".spec.type", "Type must be a non-empty string.")]));
}

#[test]
fn single_objectives_ignore_references() {
    let objective = Objective {
        display_name: None,
        op: Some(Operator::Gt),
        value: Number::parse("1"),
        target: Number::parse("0.9"),
        target_percent: None,
        time_slice_target: None,
        time_slice_window: None,
        indicator: None,
        indicator_ref: Some("missing".to_string()),
        composite_weight: None,
    };
    let mut docs = NameMap::new();
    docs.insert("other".to_string(), target_doc("other"));
    let with_map = objective.validate(&BudgetingMethod::Occurrences, Some(&docs), false, ".spec.objectives[0]");
    let without = objective.validate(&BudgetingMethod::Occurrences, None, false, ".spec.objectives[0]");
    assert_eq!(with_map, without);
    assert_eq!(
        without,
        Err(validation(".spec.objectives[0].indicator", "Indicator or indicatorRef must not be specified for non-composite objectives."))
    );
}

#[test]
fn indicators_report_their_first_error() {
    let indicator = Document::Sli(SLIDoc {
        kind: None,
        metadata: metadata("sli"),
        spec: SLISpec { description: None, threshold_metric: None, ratio_metric: None },
    });
    assert_eq!(errors(&indicator, &NameMap::new()), Err(vec![validation("kind", "SLI must have a kind.")]));
    let indicator = Document::Sli(SLIDoc {
        kind: Some(Kind::Sli),
        metadata: metadata("sli"),
        spec: SLISpec { description: None, threshold_metric: None, ratio_metric: None },
    });
    assert_eq!(
        errors(&indicator, &NameMap::new()),
        Err(vec![validation("SLI.spec.thresholdMetric", "Must specify either thresholdMetric or ratioMetric.")])
    );
}
