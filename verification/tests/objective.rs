use slo_slicer::common::{BudgetingMethod, DurationShorthand, Kind, Metadata, Operator};
use slo_slicer::document::Document;
use slo_slicer::errors::ParserError;
use slo_slicer::name_map::NameMap;
use slo_slicer::number::Number;
use slo_slicer::objective::{Objective, TimeSliceWindow};
use slo_slicer::sli::{MetricSource, RatioMetric, SLIDoc, SLISpec, ThresholdMetric};

fn metadata(name: &str) -> Metadata {
    Metadata { name: name.to_string(), display_name: None, labels: None, annotations: None }
}

fn num(s: &str) -> Number {
    Number::parse(s).unwrap()
}

fn source(reference: &str) -> MetricSource {
    MetricSource { metric_source_ref: Some(reference.to_string()), type_: Some("datadoge".to_string()), spec: None }
}

fn default_sli_map() -> NameMap<Document> {
    let mut sli_map = NameMap::new();
    sli_map.insert(
        "threshold_metric".to_string(),
        Document::Sli(SLIDoc {
            spec: SLISpec {
                threshold_metric: Some(ThresholdMetric { metric_source: source("some_errors") }),
                ratio_metric: None,
                description: None,
            },
            kind: Some(Kind::Sli),
            metadata: metadata("Test SLI"),
        }),
    );

    sli_map.insert(
        "ratio_metric".to_string(),
        Document::Sli(SLIDoc {
            kind: Some(Kind::Sli),
            metadata: metadata("Test SLI"),
            spec: SLISpec {
                description: None,
                threshold_metric: None,
                ratio_metric: Some(RatioMetric {
                    counter: Some(true),
                    good: Some(source("good")),
                    bad: Some(source("bad")),
                    total: None,
                    raw_type: None,
                    raw: None,
                }),
            },
        }),
    );

    sli_map
}

/// The objective of most tests: `Test Objective`, `lte 0.95`, targeting 90 percent.
fn objective() -> Objective {
    Objective {
        display_name: Some("Test Objective".to_string()),
        op: Some(Operator::Lte),
        value: Some(num("0.95")),
        target: None,
        target_percent: Some(num("90.0")),
        time_slice_target: None,
        time_slice_window: None,
        indicator: None,
        indicator_ref: None,
        composite_weight: None,
    }
}

fn is_error(result: Result<(), ParserError>, expected_path: &str, expected_message: &str) -> bool {
    result.is_err_and(|e| matches!(e, ParserError::Validation { path, message }
        if path == expected_path && message == expected_message))
}

#[test]
fn objective_test_valid_target_percent_objective() {
    let objective = objective();

    let result = objective.validate(&BudgetingMethod::Occurrences, None, false, "test_path");

    assert!(result.is_ok());
}

#[test]
fn objective_test_valid_composite_objective_indicator_ref() {
    let objective = Objective { indicator_ref: Some("threshold_metric".to_string()), ..objective() };

    let sli_map = default_sli_map();
    let result = objective.validate(&BudgetingMethod::Occurrences, Some(&sli_map), true, "test_path");

    assert!(result.is_ok());
}

#[test]
fn objective_test_valid_composite_objective_indicator_inline() {
    let objective = Objective {
        indicator: Some(SLIDoc {
            kind: None,
            metadata: metadata("Test SLI"),
            spec: SLISpec {
                description: None,
                ratio_metric: Some(RatioMetric {
                    counter: Some(true),
                    good: Some(source("good")),
                    bad: None,
                    total: Some(source("bad")),
                    raw_type: None,
                    raw: None,
                }),
                threshold_metric: None,
            },
        }),
        ..objective()
    };

    let result = objective.validate(&BudgetingMethod::Occurrences, None, true, "test_path");
    assert!(result.is_ok());
}

#[test]
fn objective_test_valid_target_objective() {
    let objective = Objective { target: Some(num("0.75")), target_percent: None, ..objective() };

    let result = objective.validate(&BudgetingMethod::Occurrences, None, false, "test_path");

    assert!(result.is_ok());
}

#[test]
fn objective_test_invalid_target_both() {
    let objective = Objective { target: Some(num("0.75")), ..objective() };

    let result = objective.validate(&BudgetingMethod::Occurrences, None, false, "test_path");

    assert!(is_error(result, "test_path.target, test_path.targetPercent", "Cannot specify both target and targetPercent."));
}

#[test]
fn objective_test_missing_target() {
    let objective = Objective { target_percent: None, ..objective() };

    let result = objective.validate(&BudgetingMethod::Occurrences, None, false, "test_path");

    assert!(is_error(result, "test_path.target, test_path.targetPercent", "Must specify either target or targetPercent."));
}

#[test]
fn objective_test_timeslice_required() {
    let objective = objective();

    let result = objective.validate(&BudgetingMethod::RatioTimeslices, None, false, "test_path");

    assert!(is_error(
        result,
        "test_path.timeSliceTarget, test_path.timeSliceWindow",
        "TimeSlices budgeting requires timeSliceTarget and timeSliceWindow."
    ));
}

#[test]
fn objective_invalid_timeslice_target() {
    let objective = Objective {
        time_slice_target: Some(num("1.5")),
        time_slice_window: Some(TimeSliceWindow::Numeric(5)),
        ..objective()
    };

    let result = objective.validate(&BudgetingMethod::Timeslices, None, false, "test_path");

    assert!(is_error(result, "test_path.timeSliceTarget", "TimeSlice target must be between 0 and 1."));
}

#[test]
fn objective_test_op_without_value() {
    let objective = Objective { value: None, ..objective() };

    let result = objective.validate(&BudgetingMethod::Occurrences, None, false, "test_path");

    assert!(is_error(result, "test_path.value", "Value must be specified when using an operator."));
}

#[test]
fn objective_test_value_without_op() {
    let objective = Objective { op: None, ..objective() };

    let result = objective.validate(&BudgetingMethod::Occurrences, None, false, "test_path");

    assert!(is_error(result, "test_path.op", "Operator must be specified when using a value."));
}

#[test]
fn objective_test_composite_requires_indicator() {
    let objective = objective();

    let result = objective.validate(&BudgetingMethod::Occurrences, None, true, "test_path");

    assert!(is_error(
        result,
        "test_path.indicator, test_path.indicatorRef",
        "Indicator or indicatorRef must be specified for composite objectives."
    ));
}

fn threshold_indicator() -> SLIDoc {
    SLIDoc {
        kind: None,
        metadata: metadata("Test SLI"),
        spec: SLISpec {
            description: None,
            ratio_metric: None,
            threshold_metric: Some(ThresholdMetric { metric_source: source("some_errors") }),
        },
    }
}

#[test]
fn objective_test_invalid_indicator_and_ref() {
    let objective = Objective {
        indicator: Some(threshold_indicator()),
        indicator_ref: Some("threshold_metric".to_string()),
        ..objective()
    };

    let sli_map = default_sli_map();
    let result = objective.validate(&BudgetingMethod::Occurrences, Some(&sli_map), true, "test_path");

    assert!(is_error(result, "test_path.indicator, test_path.indicatorRef", "Cannot specify both indicator and indicatorRef."));
}

#[test]
fn objective_invalid_composite_weight() {
    let objective = Objective {
        indicator_ref: Some("threshold_metric".to_string()),
        composite_weight: Some(num("-1.0")),
        ..objective()
    };

    let sli_map = default_sli_map();
    let result = objective.validate(&BudgetingMethod::Occurrences, Some(&sli_map), true, "test_path");

    assert!(is_error(result, "test_path.compositeWeight", "Composite weight must be greater than or equal to 0."));
}

#[test]
fn objective_test_single_objective_weight() {
    let objective = Objective { composite_weight: Some(num("1.0")), ..objective() };

    let result = objective.validate(&BudgetingMethod::Occurrences, None, false, "test_path");

    assert!(is_error(result, "test_path.compositeWeight", "Composite weight must not be specified for single objectives."));
}

#[test]
fn test_valid_composite_objective_threshold_matric() {
    let objective = Objective { indicator: Some(threshold_indicator()), ..objective() };

    let result = objective.validate(&BudgetingMethod::Occurrences, None, true, "test_path");

    assert!(is_error(result, "test_path.indicator", "Can't use thresholdMetric in composite objectives."));
}

#[test]
fn target_bounds_are_exclusive() {
    for (text, ok) in [("0", false), ("0.0001", true), ("0.9999", true), ("1", false), ("1.0", false), ("-0.5", false), ("NaN", true), ("inf", false)] {
        let o = Objective { target: Some(num(text)), target_percent: None, ..objective() };
        let r = o.validate(&BudgetingMethod::Occurrences, None, false, "o");
        assert_eq!(r.is_ok(), ok, "target {}", text);
        if !ok {
            assert!(is_error(r, "o.target", "Target must be between 0 and 1."));
        }
    }
    for (text, ok) in [("0", false), ("99.999", true), ("100", false), ("100.5", false), ("0.5", true)] {
        let o = Objective { target_percent: Some(num(text)), ..objective() };
        let r = o.validate(&BudgetingMethod::Occurrences, None, false, "o");
        assert_eq!(r.is_ok(), ok, "targetPercent {}", text);
        if !ok {
            assert!(is_error(r, "o.targetPercent", "Target percent must be between 0 and 100."));
        }
    }
}

#[test]
fn time_slice_target_may_be_one() {
    let window = || Some(TimeSliceWindow::DurationShorthand(DurationShorthand::parse("5m".to_string()).unwrap()));
    let o = Objective { time_slice_target: Some(num("1")), time_slice_window: window(), ..objective() };
    assert!(o.validate(&BudgetingMethod::Timeslices, None, false, "o").is_ok());
    let o = Objective { time_slice_target: Some(num("0")), time_slice_window: window(), ..objective() };
    assert!(is_error(o.validate(&BudgetingMethod::Timeslices, None, false, "o"), "o.timeSliceTarget", "TimeSlice target must be between 0 and 1."));
}

#[test]
fn unknown_or_threshold_references_of_composite_objectives() {
    let sli_map = default_sli_map();
    let o = Objective { indicator_ref: Some("nope".to_string()), ..objective() };
    assert!(is_error(o.validate(&BudgetingMethod::Occurrences, Some(&sli_map), true, "o"), "o.indicatorRef", "Indicator reference `nope` not found."));
    // Without a map the reference is not looked up.
    assert!(o.validate(&BudgetingMethod::Occurrences, None, true, "o").is_ok());
    let o = Objective { indicator_ref: Some("threshold_metric".to_string()), value: None, op: None, ..objective() };
    assert!(is_error(o.validate(&BudgetingMethod::Occurrences, Some(&sli_map), true, "o"), "o.indicator", "op and value must be specified when using a thresholdMetric."));
}

#[test]
fn invalid_operator_of_objective() {
    let o = Objective { op: Some(Operator::Invalid), ..objective() };
    assert!(is_error(o.validate(&BudgetingMethod::Occurrences, None, false, "o"), "o.op", "Invalid operator specified."));
}

#[test]
fn time_slice_windows_serialise_as_durations() {
    assert_eq!(TimeSliceWindow::Numeric(5).to_shorthand(), "5m");
    assert_eq!(TimeSliceWindow::Numeric(0).to_shorthand(), "0m");
    assert_eq!(TimeSliceWindow::Numeric(4294967295).to_shorthand(), "4294967295m");
    let d = TimeSliceWindow::DurationShorthand(DurationShorthand::parse("1h".to_string()).unwrap());
    assert_eq!(d.to_shorthand(), "1h");
}
