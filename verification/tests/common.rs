use slo_slicer::document::Document;
use slo_slicer::sli::{MetricSource, RatioMetric, RawType};
use slo_slicer::alert_condition::{default_kind, Condition, CondtionKind};
use slo_slicer::common::{DurationShorthand, Kind, Metadata, Operator};
use slo_slicer::data_source::{DataSourceDoc, DataSourceSpec};
use slo_slicer::errors::{ParserError, ValidationError};
use slo_slicer::name_map::NameMap;
use slo_slicer::objective::TimeSliceWindow;
use slo_slicer::service::{ServiceDoc, ServiceSpec};
use slo_slicer::slo::default_is_rolling;
use slo_slicer::text::{indexed, is_blank, join, join3, two_fields, u64_to_decimal};
use slo_slicer::validation_context::ValidationContext;

fn metadata(name: &str) -> Metadata {
    Metadata { name: name.to_string(), display_name: None, labels: None, annotations: None }
}

fn validation(path: &str, message: &str) -> ParserError {
    ParserError::Validation { path: path.to_string(), message: message.to_string() }
}

#[test]
fn duration_shorthand_accepts_each_unit() {
    for text in ["5m", "1h", "30d", "2w", "1M", "1Q", "1Y", "0m", "120m"] {
        let d = DurationShorthand::parse(text.to_string()).unwrap();
        assert_eq!(d.as_str(), text);
    }
}

#[test]
fn duration_shorthand_refuses_other_text() {
    for text in ["", "5", "m", "5s", "-5m", "5 m", "5mm", "1.5h", "h5"] {
        let err = DurationShorthand::parse(text.to_string()).unwrap_err();
        assert_eq!(
            err,
            format!("Invalid duration format: `{text}`. Must be a positive integer followed by m/h/d/w/M/Q/Y.")
        );
    }
}

#[test]
fn time_slice_window_as_shorthand() {
    assert_eq!(TimeSliceWindow::Numeric(5).to_shorthand(), "5m");
    assert_eq!(TimeSliceWindow::Numeric(0).to_shorthand(), "0m");
    assert_eq!(TimeSliceWindow::Numeric(4294967295).to_shorthand(), "4294967295m");
    let d = DurationShorthand::parse("1h".to_string()).unwrap();
    assert_eq!(TimeSliceWindow::DurationShorthand(d).to_shorthand(), "1h");
}

#[test]
fn defaults() {
    assert_eq!(default_kind(), CondtionKind::Burnrate);
    assert!(default_is_rolling());
}

#[test]
fn condition_defaults_alert_after() {
    let c = Condition::from_fields(None, Some(Operator::Gt), None, None, None);
    assert_eq!(c.kind, CondtionKind::Burnrate);
    assert_eq!(c.alert_after.unwrap().as_str(), "0m");
    let five = DurationShorthand::parse("5m".to_string()).unwrap();
    let c = Condition::from_fields(Some(CondtionKind::Burnrate), None, None, None, Some(five));
    assert_eq!(c.alert_after.unwrap().as_str(), "5m");
}

#[test]
fn error_text_per_variant() {
    assert_eq!(ParserError::Yaml("bad".to_string()).text(), "Failed to deserialise yaml: bad");
    assert_eq!(ParserError::Json("bad".to_string()).text(), "Failed to serialise json: bad");
    assert_eq!(ParserError::Io("gone".to_string()).text(), "IO error: gone");
    assert_eq!(validation(".spec", "Wrong.").text(), "Validation failed at .spec with message: Wrong.");
    assert_eq!(ParserError::validation(".kind".to_string(), "m"), validation(".kind", "m"));
    let e = ValidationError::new("SLI.spec".to_string(), "oops");
    assert_eq!(e.clone().into_parser_error(), validation("SLI.spec", "oops"));
}

#[test]
fn text_helpers() {
    assert!(is_blank(""));
    assert!(is_blank(" \t\n\u{a0}"));
    assert!(!is_blank(" a "));
    assert!(is_blank("\u{3000}\u{2028}\u{85}\u{b}\u{c}\r\u{2009}\u{202f}\u{205f}\u{1680}"));
    assert!(!is_blank("\u{200b}"));
    assert!(!is_blank("foo"));
    assert_eq!(join("a", "b"), "ab");
    assert_eq!(join3("a", "b", "c"), "abc");
    assert_eq!(u64_to_decimal(0), "0");
    assert_eq!(u64_to_decimal(18446744073709551615), "18446744073709551615");
    assert_eq!(indexed(".spec", ".objectives[", 12, "]"), ".spec.objectives[12]");
    assert_eq!(two_fields("x", ".a", ".b"), "x.a, x.b");
}

#[test]
fn validation_context_keeps_order() {
    let mut ctx = ValidationContext::new();
    ctx.push(validation("a", "1"));
    let mut other = ValidationContext::new();
    other.push(validation("b", "2"));
    other.push(validation("c", "3"));
    ctx.combine(&mut other);
    ctx.push(validation("d", "4"));
    assert_eq!(
        ctx.result().unwrap_err(),
        vec![validation("a", "1"), validation("b", "2"), validation("c", "3"), validation("d", "4")]
    );
    assert_eq!(ValidationContext::new().result(), Ok(()));
}

#[test]
fn name_map_reads_back_what_was_written() {
    let mut m: NameMap<u32> = NameMap::new();
    assert_eq!(m.len(), 0);
    assert_eq!(m.get("a"), None);
    m.insert("a".to_string(), 1);
    m.insert("b".to_string(), 2);
    m.insert("a".to_string(), 3);
    assert_eq!(m.len(), 2);
    assert_eq!(m.get("a"), Some(&3));
    assert_eq!(m.get("b"), Some(&2));
    let (k, v) = m.entry(0);
    assert_eq!((k.as_str(), *v), ("a", 3));
    let mut other = NameMap::new();
    other.insert("b".to_string(), 20);
    other.insert("c".to_string(), 30);
    m.extend(other);
    assert_eq!(m.len(), 3);
    assert_eq!(m.get("a"), Some(&3));
    assert_eq!(m.get("b"), Some(&20));
    assert_eq!(m.get("c"), Some(&30));
}

#[test]
fn data_source_needs_kind_and_type() {
    let doc = DataSourceDoc {
        kind: None,
        metadata: metadata("ds"),
        spec: DataSourceSpec { description: None, type_: "  ".to_string(), connection_details: None },
    };
    let mut ctx = ValidationContext::new();
    doc.validate(None, &mut ctx);
    assert_eq!(
        ctx.result().unwrap_err(),
        vec![
            validation(".kind", "Expected kind to be DataSource."),
            validation(".spec.type", "Type must be a non-empty string."),
        ]
    );
    let doc = DataSourceDoc {
        kind: Some(Kind::DataSource),
        metadata: metadata("ds"),
        spec: DataSourceSpec { description: None, type_: "Prometheus".to_string(), connection_details: None },
    };
    let mut ctx = ValidationContext::new();
    doc.validate(Some("ds"), &mut ctx);
    assert_eq!(ctx.result(), Ok(()));
}

#[test]
fn service_needs_its_kind() {
    let mut ctx = ValidationContext::new();
    ServiceDoc { kind: Some(Kind::Slo), metadata: metadata("s"), spec: ServiceSpec { description: None } }.validate(&mut ctx);
    assert_eq!(ctx.result().unwrap_err(), vec![validation(".kind", "Expected kind to be Service.")]);
    let mut ctx = ValidationContext::new();
    ServiceDoc { kind: Some(Kind::Service), metadata: metadata("s"), spec: ServiceSpec { description: None } }.validate(&mut ctx);
    assert_eq!(ctx.result(), Ok(()));
}

#[test]
fn raw_ratio_with_counter_is_ignored() {
    let source = || MetricSource { metric_source_ref: Some("m".to_string()), type_: None, spec: None };
    let raw = RatioMetric {
        counter: Some(false),
        good: None,
        bad: None,
        total: None,
        raw_type: Some(RawType::Success),
        raw: Some(source()),
    };
    assert!(raw.counter_ignored());
    let no_counter = RatioMetric { counter: None, ..raw };
    assert!(!no_counter.counter_ignored());
    let no_type = RatioMetric { counter: Some(true), raw_type: None, ..no_counter };
    assert!(!no_type.counter_ignored());
    let good_total = RatioMetric {
        counter: Some(true),
        good: Some(source()),
        bad: None,
        total: Some(source()),
        raw_type: None,
        raw: None,
    };
    assert!(!good_total.counter_ignored());
}

#[test]
fn api_version_must_end_in_v1() {
    assert!(Document::check_api_version("v1", "p").is_ok());
    assert!(Document::check_api_version("openslo/v1", "p").is_ok());
    assert!(Document::check_api_version("1", "p").is_err());
    assert!(Document::check_api_version("", "p").is_err());
    assert!(Document::check_api_version("openslo/v1alpha", "p").is_err());
}
