use std::collections::HashMap;

use slo_slicer::alert_notification_target::{AlertNotificationTargetDoc, AlertNotificationTargetSpec};
use slo_slicer::common::{Kind, Metadata, StringOrVec};
use slo_slicer::errors::ParserError;
use slo_slicer::validation_context::ValidationContext;

#[test]
fn test_alert_notification_target_spec() {
    let expected = AlertNotificationTargetDoc {
        kind: Some(Kind::AlertNotificationTarget),
        metadata: Metadata {
            name: "test".to_string(),
            display_name: None,
            labels: {
                let mut map = HashMap::new();
                map.insert("env".to_string(), StringOrVec::Single("test".to_string()));
                Some(map)
            },
            annotations: None,
        },
        spec: AlertNotificationTargetSpec {
            target: "slack".to_string(),
            description: None,
        },
    };

    // kind: AlertNotificationTarget / metadata: name test, labels env: test /
    // spec: target: slack
    let alert_condition = AlertNotificationTargetDoc {
        kind: Some(Kind::AlertNotificationTarget),
        metadata: Metadata {
            name: "test".to_string(),
            display_name: None,
            labels: Some(HashMap::from([("env".to_string(), StringOrVec::Single("test".to_string()))])),
            annotations: None,
        },
        spec: AlertNotificationTargetSpec { target: "slack".to_string(), description: None },
    };
    let mut validation_context = ValidationContext::new();

    alert_condition.validate(None, &mut validation_context);

    assert!(expected == alert_condition);
    assert!(validation_context.result().is_ok());
}

#[test]
fn test_alert_notification_target_spec_full() {
    let expected = AlertNotificationTargetDoc {
        kind: Some(Kind::AlertNotificationTarget),
        metadata: Metadata { name: "test".to_string(), display_name: None, labels: None, annotations: None },
        spec: AlertNotificationTargetSpec {
            target: "slack".to_string(),
            description: Some("Slack channel".to_string()),
        },
    };

    let alert_condition = AlertNotificationTargetDoc {
        kind: Some(Kind::AlertNotificationTarget),
        metadata: Metadata { name: "test".to_string(), display_name: None, labels: None, annotations: None },
        spec: AlertNotificationTargetSpec { target: "slack".to_string(), description: Some("Slack channel".to_string()) },
    };
    let mut validation_context = ValidationContext::new();

    alert_condition.validate(None, &mut validation_context);

    assert!(expected == alert_condition);
    assert!(validation_context.result().is_ok());
}

#[test]
fn empty_target_is_refused_but_blank_is_not() {
    let empty = AlertNotificationTargetSpec { target: String::new(), description: None };
    let mut ctx = ValidationContext::new();
    empty.validate("t", &mut ctx);
    assert_eq!(ctx.result().unwrap_err(), vec![ParserError::Validation {
        path: "t.target".to_string(),
        message: "Target must not be empty.".to_string(),
    }]);

    let blank = AlertNotificationTargetSpec { target: " ".to_string(), description: None };
    let mut ctx = ValidationContext::new();
    blank.validate("t", &mut ctx);
    assert!(ctx.result().is_ok());
}

#[test]
fn target_document_of_wrong_kind() {
    let doc = AlertNotificationTargetDoc {
        kind: None,
        metadata: Metadata { name: "n".to_string(), display_name: None, labels: None, annotations: None },
        spec: AlertNotificationTargetSpec { target: "pager".to_string(), description: None },
    };
    let mut ctx = ValidationContext::new();
    doc.validate(None, &mut ctx);
    assert_eq!(ctx.result().unwrap_err(), vec![ParserError::Validation {
        path: ".kind".to_string(),
        message: "Expected kind to be AlertNotificationTarget.".to_string(),
    }]);
}
