//! The objectives of an SLO.

use vstd::prelude::*;
use crate::common::{BudgetingMethod, DurationShorthand, Operator};
use crate::document::Document;
use crate::errors::{ErrorView, ParserError, verr};
use crate::name_map::NameMap;
use crate::number::Number;
use crate::sli::{SLIDoc, first_of, fails_if};
use crate::text::{decimal, join, join3, push_char, two_fields, fields, u64_to_decimal};

verus! {

/// The window of a time slice: a number of minutes, or a duration.
#[derive(Debug, PartialEq)]
pub enum TimeSliceWindow {
    Numeric(u32),
    DurationShorthand(DurationShorthand),
}

impl TimeSliceWindow {
    /// The window as a duration: `{n}m` for a number of minutes.
    pub open spec fn shorthand(&self) -> Seq<char> {
        match self {
            TimeSliceWindow::Numeric(n) => decimal(*n as nat).push('m'),
            TimeSliceWindow::DurationShorthand(d) => d.0@,
        }
    }

    /// The window written as a duration, as it is serialised.
    pub fn to_shorthand(&self) -> (res: String)
        ensures
            res@ == self.shorthand(),
    {
        match self {
            TimeSliceWindow::Numeric(n) => {
                let mut s = u64_to_decimal(*n as u64);
                push_char(&mut s, 'm');
                s
            },
            TimeSliceWindow::DurationShorthand(d) => String::from_str(d.as_str()),
        }
    }
}

/// An objective of an SLO.
#[derive(Debug, PartialEq)]
pub struct Objective {
    pub display_name: Option<String>,
    pub op: Option<Operator>,
    pub value: Option<Number>,
    pub target: Option<Number>,
    pub target_percent: Option<Number>,
    pub time_slice_target: Option<Number>,
    pub time_slice_window: Option<TimeSliceWindow>,
    pub indicator: Option<SLIDoc>,
    pub indicator_ref: Option<String>,
    pub composite_weight: Option<Number>,
}

/// The outcome of a check that reports its first error, viewed.
pub open spec fn first_error(res: Result<(), ParserError>) -> Option<ErrorView> {
    match res {
        Ok(_) => None,
        Err(e) => Some(e@),
    }
}

/// The budgeting methods that count time slices.
pub open spec fn counts_timeslices(m: BudgetingMethod) -> bool {
    m == BudgetingMethod::Timeslices || m == BudgetingMethod::RatioTimeslices
}

impl Objective {
    /// The first error of the target at `path`: exactly one of target and
    /// target percent, the percent strictly between 0 and 100, the target
    /// strictly between 0 and 1.
    pub open spec fn target_check(&self, path: Seq<char>) -> Option<ErrorView> {
        let both = fields(path, ".target"@, ".targetPercent"@);
        first_of(
            fails_if(self.target is Some && self.target_percent is Some,
                verr(both, "Cannot specify both target and targetPercent."@)),
        first_of(
            fails_if(self.target is None && self.target_percent is None,
                verr(both, "Must specify either target or targetPercent."@)),
        first_of(
            fails_if(self.target_percent matches Some(p) && (p@.le(0) || p@.ge(100)),
                verr(path + ".targetPercent"@, "Target percent must be between 0 and 100."@)),
            fails_if(self.target matches Some(t) && (t@.le(0) || t@.ge(1)),
                verr(path + ".target"@, "Target must be between 0 and 1."@)),
        )))
    }

    /// The first error of the time slices at `path`: budgeting by time slices
    /// needs a time slice target and window, the target in (0, 1].
    pub open spec fn timeslice_check(&self, budgeting_method: BudgetingMethod, path: Seq<char>) -> Option<ErrorView> {
        if counts_timeslices(budgeting_method) {
            first_of(
                fails_if(self.time_slice_target is None || self.time_slice_window is None,
                    verr(fields(path, ".timeSliceTarget"@, ".timeSliceWindow"@),
                        "TimeSlices budgeting requires timeSliceTarget and timeSliceWindow."@)),
                fails_if(self.time_slice_target matches Some(t) && (t@.le(0) || t@.gt(1)),
                    verr(path + ".timeSliceTarget"@, "TimeSlice target must be between 0 and 1."@)),
            )
        } else {
            None
        }
    }

    /// The first error of the operator at `path`: operator and value come
    /// together, and the operator must be known.
    pub open spec fn operators_check(&self, path: Seq<char>) -> Option<ErrorView> {
        first_of(
            fails_if(self.op is Some && self.value is None,
                verr(path + ".value"@, "Value must be specified when using an operator."@)),
        first_of(
            fails_if(self.value is Some && self.op is None,
                verr(path + ".op"@, "Operator must be specified when using a value."@)),
            fails_if(self.op == Some(Operator::Invalid),
                verr(path + ".op"@, "Invalid operator specified."@)),
        ))
    }

    /// The first error of the indicator referred to by a composite objective,
    /// looked up in `sli_map`.
    pub open spec fn reference_check(&self, sli_map: Option<&NameMap<Document>>, path: Seq<char>) -> Option<ErrorView> {
        match (self.indicator_ref, sli_map) {
            (Some(r), Some(m)) => match m.lookup(r@) {
                Some(Document::Sli(d)) => fails_if(
                    d.spec.spec_is_threshold_metric() && (self.op is None || self.value is None),
                    verr(path + ".indicator"@, "op and value must be specified when using a thresholdMetric."@)),
                _ => Some(verr(path + ".indicatorRef"@, "Indicator reference `"@ + r@ + "` not found."@)),
            },
            _ => None,
        }
    }

    /// The first error of the indicators at `path`: not both an indicator and
    /// a reference; a composite objective needs one, not a threshold metric
    /// inline, a valid inline indicator, a known referred indicator (when a
    /// map is given) and no negative weight; a single objective has neither
    /// indicator nor weight.
    pub open spec fn indicators_check(&self, sli_map: Option<&NameMap<Document>>, is_composite: bool, path: Seq<char>) -> Option<ErrorView> {
        let both = fields(path, ".indicator"@, ".indicatorRef"@);
        if self.indicator is Some && self.indicator_ref is Some {
            Some(verr(both, "Cannot specify both indicator and indicatorRef."@))
        } else if is_composite {
            first_of(
                fails_if(self.indicator is None && self.indicator_ref is None,
                    verr(both, "Indicator or indicatorRef must be specified for composite objectives."@)),
            first_of(
                match self.indicator {
                    Some(i) => if i.spec.spec_is_threshold_metric() {
                        Some(verr(path + ".indicator"@, "Can't use thresholdMetric in composite objectives."@))
                    } else {
                        i.check(true, Some(path + ".indicator"@))
                    },
                    None => None,
                },
            first_of(
                self.reference_check(sli_map, path),
                fails_if(self.composite_weight matches Some(w) && w@.lt(0),
                    verr(path + ".compositeWeight"@, "Composite weight must be greater than or equal to 0."@)),
            )))
        } else {
            first_of(
                fails_if(self.indicator is Some || self.indicator_ref is Some,
                    verr(path + ".indicator"@, "Indicator or indicatorRef must not be specified for non-composite objectives."@)),
                fails_if(self.composite_weight is Some,
                    verr(path + ".compositeWeight"@, "Composite weight must not be specified for single objectives."@)),
            )
        }
    }

    /// The first error of the objective at `path`, in the order: target, time
    /// slices, operator, then indicators (first looked up in `sli_map` for a
    /// composite objective, then without it).
    pub open spec fn check(&self, budgeting_method: BudgetingMethod, sli_map: Option<&NameMap<Document>>, is_composite: bool, path: Seq<char>) -> Option<ErrorView> {
        first_of(self.target_check(path),
        first_of(self.timeslice_check(budgeting_method, path),
        first_of(self.operators_check(path),
        first_of(
            if is_composite && sli_map is Some { self.indicators_check(sli_map, is_composite, path) } else { None },
            self.indicators_check(None, is_composite, path),
        ))))
    }

    fn validate_target(&self, path: &str) -> (res: Result<(), ParserError>)
        ensures
            first_error(res) == self.target_check(path@),
    {
        if self.target.is_some() && self.target_percent.is_some() {
            return Err(ParserError::validation(two_fields(path, ".target", ".targetPercent"), "Cannot specify both target and targetPercent."));
        }
        if self.target.is_none() && self.target_percent.is_none() {
            return Err(ParserError::validation(two_fields(path, ".target", ".targetPercent"), "Must specify either target or targetPercent."));
        }
        if let Some(target_percent) = &self.target_percent {
            if target_percent.le(0) || target_percent.ge(100) {
                return Err(ParserError::validation(join(path, ".targetPercent"), "Target percent must be between 0 and 100."));
            }
        }
        if let Some(target) = &self.target {
            if target.le(0) || target.ge(1) {
                return Err(ParserError::validation(join(path, ".target"), "Target must be between 0 and 1."));
            }
        }
        Ok(())
    }

    fn validate_timeslice(&self, budgeting_method: &BudgetingMethod, path: &str) -> (res: Result<(), ParserError>)
        ensures
            first_error(res) == self.timeslice_check(*budgeting_method, path@),
    {
        if matches!(budgeting_method, BudgetingMethod::Timeslices | BudgetingMethod::RatioTimeslices) {
            if self.time_slice_target.is_none() || self.time_slice_window.is_none() {
                return Err(ParserError::validation(two_fields(path, ".timeSliceTarget", ".timeSliceWindow"), "TimeSlices budgeting requires timeSliceTarget and timeSliceWindow."));
            }
            if let Some(tst) = &self.time_slice_target {
                if tst.le(0) || tst.gt(1) {
                    return Err(ParserError::validation(join(path, ".timeSliceTarget"), "TimeSlice target must be between 0 and 1."));
                }
            }
        }
        Ok(())
    }

    fn validate_operators(&self, path: &str) -> (res: Result<(), ParserError>)
        ensures
            first_error(res) == self.operators_check(path@),
    {
        if self.op.is_some() && self.value.is_none() {
            return Err(ParserError::validation(join(path, ".value"), "Value must be specified when using an operator."));
        }
        if self.value.is_some() && self.op.is_none() {
            return Err(ParserError::validation(join(path, ".op"), "Operator must be specified when using a value."));
        }
        if matches!(self.op, Some(Operator::Invalid)) {
            return Err(ParserError::validation(join(path, ".op"), "Invalid operator specified."));
        }
        Ok(())
    }

    fn validate_reference(&self, sli_map: Option<&NameMap<Document>>, path: &str) -> (res: Result<(), ParserError>)
        ensures
            first_error(res) == self.reference_check(sli_map, path@),
    {
        if let Some(indicator_ref) = &self.indicator_ref {
            if let Some(sli_map) = sli_map {
                match sli_map.get(indicator_ref.as_str()) {
                    Some(Document::Sli(indicator)) => {
                        if indicator.spec.is_threshold_metric() && (self.op.is_none() || self.value.is_none()) {
                            return Err(ParserError::validation(join(path, ".indicator"), "op and value must be specified when using a thresholdMetric."));
                        }
                    },
                    _ => {
                        return Err(ParserError::validation(
                            join(path, ".indicatorRef"),
                            join3("Indicator reference `", indicator_ref.as_str(), "` not found.").as_str(),
                        ));
                    },
                }
            }
        }
        Ok(())
    }

    fn validate_indicators(&self, sli_map: Option<&NameMap<Document>>, is_composite: bool, path: &str) -> (res: Result<(), ParserError>)
        ensures
            first_error(res) == self.indicators_check(sli_map, is_composite, path@),
    {
        if self.indicator.is_some() && self.indicator_ref.is_some() {
            return Err(ParserError::validation(two_fields(path, ".indicator", ".indicatorRef"), "Cannot specify both indicator and indicatorRef."));
        }
        if is_composite {
            if self.indicator.is_none() && self.indicator_ref.is_none() {
                return Err(ParserError::validation(two_fields(path, ".indicator", ".indicatorRef"), "Indicator or indicatorRef must be specified for composite objectives."));
            }
            if let Some(indicator) = &self.indicator {
                if indicator.spec.is_threshold_metric() {
                    return Err(ParserError::validation(join(path, ".indicator"), "Can't use thresholdMetric in composite objectives."));
                }
                let p = join(path, ".indicator");
                match indicator.validate(true, Some(p.as_str())) {
                    Ok(()) => {},
                    Err(e) => {
                        return Err(e.into_parser_error());
                    },
                }
            }
            self.validate_reference(sli_map, path)?;
            if let Some(composite_weight) = &self.composite_weight {
                if composite_weight.lt(0) {
                    return Err(ParserError::validation(join(path, ".compositeWeight"), "Composite weight must be greater than or equal to 0."));
                }
            }
        } else {
            if self.indicator.is_some() || self.indicator_ref.is_some() {
                return Err(ParserError::validation(join(path, ".indicator"), "Indicator or indicatorRef must not be specified for non-composite objectives."));
            }
            if self.composite_weight.is_some() {
                return Err(ParserError::validation(join(path, ".compositeWeight"), "Composite weight must not be specified for single objectives."));
            }
        }
        Ok(())
    }

    /// Reports the first error of the objective at `path`, counting its budget
    /// by `budgeting_method`; a composite objective's referred indicator is
    /// looked up in `sli_map` when one is given.
    pub fn validate(&self, budgeting_method: &BudgetingMethod, sli_map: Option<&NameMap<Document>>, is_composite: bool, path: &str) -> (res: Result<(), ParserError>)
        ensures
            first_error(res) == self.check(*budgeting_method, sli_map, is_composite, path@),
    {
        self.validate_target(path)?;
        self.validate_timeslice(budgeting_method, path)?;
        self.validate_operators(path)?;
        if is_composite {
            if let Some(sli_map) = sli_map {
                self.validate_indicators(Some(sli_map), is_composite, path)?;
            }
        }
        self.validate_indicators(None, is_composite, path)?;
        Ok(())
    }
}

} // verus!
