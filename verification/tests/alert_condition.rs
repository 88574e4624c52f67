use slo_slicer::alert_condition::{AlertConditionDoc, AlertConditionSpec, Condition, CondtionKind};
use slo_slicer::common::{DurationShorthand, Kind, Metadata, Operator};
use slo_slicer::errors::ParserError;
use slo_slicer::number::Number;
use slo_slicer::validation_context::ValidationContext;

fn metadata(name: &str) -> Metadata {
    Metadata { name: name.to_string(), display_name: None, labels: None, annotations: None }
}

fn duration(s: &str) -> DurationShorthand {
    DurationShorthand::parse(s.to_string()).unwrap()
}

fn num(s: &str) -> Number {
    Number::parse(s).unwrap()
}

/// The condition that the document's fields give, as reading a document does.
fn condition(kind: Option<CondtionKind>, op: Option<Operator>, threshold: Option<&str>, lookback: Option<&str>, alert_after: Option<&str>) -> Condition {
    Condition::from_fields(kind, op, threshold.map(num), lookback.map(duration), alert_after.map(duration))
}

#[test]
fn alert_condition_test_minimal_valid_config() {
    // kind: AlertCondition / metadata: name: test / spec: severity: page,
    // condition: kind burnrate, op gte, threshold 1.5, lookbackWindow 5m
    let expected = AlertConditionDoc {
        kind: Some(Kind::AlertCondition),
        metadata: metadata("test"),
        spec: AlertConditionSpec {
            description: None,
            severity: "page".to_string(),
            condition: Condition {
                kind: CondtionKind::Burnrate,
                op: Some(Operator::Gte),
                threshold: Some(num("1.5")),
                lookback_window: Some(DurationShorthand("5m".to_string())),
                alert_after: Some(DurationShorthand("0m".to_string())),
            },
        },
    };

    let alert_condition = AlertConditionDoc {
        kind: Some(Kind::AlertCondition),
        metadata: metadata("test"),
        spec: AlertConditionSpec {
            description: None,
            severity: "page".to_string(),
            condition: condition(Some(CondtionKind::Burnrate), Some(Operator::Gte), Some("1.5"), Some("5m"), None),
        },
    };
    let mut validation_context = ValidationContext::new();

    alert_condition.validate(Some("test"), &mut validation_context);

    assert!(validation_context.result().is_ok());

    assert!(expected == alert_condition);
}

#[test]
fn alert_condition_test_full_valid_config() {
    let expected = AlertConditionDoc {
        kind: Some(Kind::AlertCondition),
        metadata: metadata("test"),
        spec: AlertConditionSpec {
            description: Some("Breach if memory usage is too high for too long".to_string()),
            severity: "sev1".to_string(),
            condition: Condition {
                kind: CondtionKind::Burnrate,
                op: Some(Operator::Lte),
                threshold: Some(num("0.8")),
                lookback_window: Some(DurationShorthand("30m".to_string())),
                alert_after: Some(DurationShorthand("5m".to_string())),
            },
        },
    };

    let alert_condition = AlertConditionDoc {
        kind: Some(Kind::AlertCondition),
        metadata: metadata("test"),
        spec: AlertConditionSpec {
            description: Some("Breach if memory usage is too high for too long".to_string()),
            severity: "sev1".to_string(),
            condition: condition(Some(CondtionKind::Burnrate), Some(Operator::Lte), Some("0.8"), Some("30m"), Some("5m")),
        },
    };
    let mut validation_context = ValidationContext::new();

    alert_condition.validate(None, &mut validation_context);
    assert!(expected == alert_condition);
    assert!(validation_context.result().is_ok());
}

#[test]
fn alert_condition_test_missing_op() {
    let alert_condition = AlertConditionDoc {
        kind: Some(Kind::AlertCondition),
        metadata: metadata("test"),
        spec: AlertConditionSpec {
            description: None,
            severity: "sev1".to_string(),
            condition: condition(Some(CondtionKind::Burnrate), None, Some("0.8"), Some("30m"), None),
        },
    };

    let mut validation_context = ValidationContext::new();
    alert_condition.validate(None, &mut validation_context);

    assert!(validation_context.result().is_err_and(
        |e| matches!(&e[0], ParserError::Validation { path, message }
        if path == "AlertCondition.spec.condition.op"
            && message == "Operator must be specified for burnrate condition.")
    ));
}

#[test]
fn alert_condition_invalid_op() {
    // `op: between` is not a known operator.
    let alert_condition = AlertConditionDoc {
        kind: Some(Kind::AlertCondition),
        metadata: metadata("test"),
        spec: AlertConditionSpec {
            description: None,
            severity: "sev1".to_string(),
            condition: condition(Some(CondtionKind::Burnrate), Some(Operator::Invalid), Some("0.8"), Some("30m"), None),
        },
    };

    let mut validation_context = ValidationContext::new();
    alert_condition.validate(None, &mut validation_context);

    assert!(
        validation_context.result().is_err_and(|e| matches!(&e[0], ParserError::Validation { path, message }
        if path == "AlertCondition.spec.condition.op" && message == "Invalid operator specified."))
    );
}

#[test]
fn condition_kind_defaults_to_burnrate() {
    let c = condition(None, Some(Operator::Gt), Some("2"), Some("1h"), None);
    assert_eq!(c.kind, CondtionKind::Burnrate);
    assert_eq!(c.alert_after, Some(DurationShorthand("0m".to_string())));
}

#[test]
fn condition_reports_every_missing_field_in_order() {
    let c = Condition { kind: CondtionKind::Burnrate, op: None, threshold: None, lookback_window: None, alert_after: None };
    let mut ctx = ValidationContext::new();
    c.validate("p", &mut ctx);
    let errors = ctx.result().unwrap_err();
    let paths: Vec<String> = errors.iter().map(|e| match e {
        ParserError::Validation { path, .. } => path.clone(),
        _ => String::new(),
    }).collect();
    assert_eq!(paths, vec![
        "p.condition.op".to_string(),
        "p.condition.threshold".to_string(),
        "p.condition.lookbackWindow".to_string(),
        "p.condition.alertAfter".to_string(),
    ]);
}

#[test]
fn blank_severity_and_wrong_kind() {
    let doc = AlertConditionDoc {
        kind: Some(Kind::Service),
        metadata: metadata("c"),
        spec: AlertConditionSpec {
            description: None,
            severity: " \t ".to_string(),
            condition: condition(None, Some(Operator::Lt), Some("1"), Some("5m"), None),
        },
    };
    let mut ctx = ValidationContext::new();
    doc.validate(Some("x"), &mut ctx);
    let errors = ctx.result().unwrap_err();
    assert_eq!(errors, vec![
        ParserError::Validation { path: "x.kind".to_string(), message: "Expected kind to be AlertCondition.".to_string() },
        ParserError::Validation { path: "x.spec.severity".to_string(), message: "Severity must be a non-empty string.".to_string() },
    ]);
}
