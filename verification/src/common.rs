//! The parts that documents of several kinds share.

use std::collections::HashMap;
use vstd::prelude::*;
use vstd::string::*;
use crate::text::join3;

verus! {

/// A YAML value that the rules do not read, such as the connection details
/// of a data source or the query of a metric source.
#[verifier::external_type_specification]
#[verifier::external_body]
pub struct ExYamlValue(serde_yaml::Value);

/// The characters of an optional path.
pub open spec fn opt_view(path: Option<&str>) -> Option<Seq<char>> {
    match path {
        Some(p) => Some(p@),
        None => None,
    }
}

/// The path `path` or, when there is none, `default`.
pub open spec fn path_or(path: Option<Seq<char>>, default: Seq<char>) -> Seq<char> {
    match path {
        Some(p) => p,
        None => default,
    }
}

/// The path `path` or, when there is none, `default`.
pub fn unwrap_path<'a>(path: Option<&'a str>, default: &'a str) -> (res: &'a str)
    ensures
        res@ == path_or(opt_view(path), default@),
{
    match path {
        Some(p) => p,
        None => default,
    }
}

/// The kind of a document.
#[derive(Debug, Clone, Copy, PartialEq, Eq, Structural)]
pub enum Kind {
    DataSource,
    Slo,
    Sli,
    AlertPolicy,
    AlertCondition,
    AlertNotificationTarget,
    Service,
}

/// A label value: one string or several.
#[derive(Debug, PartialEq)]
pub enum StringOrVec {
    Single(String),
    Multiple(Vec<String>),
}

/// The metadata of a document; its name is how other documents refer to it.
#[derive(Debug, PartialEq)]
pub struct Metadata {
    pub name: String,
    pub display_name: Option<String>,
    pub labels: Option<HashMap<String, StringOrVec>>,
    pub annotations: Option<HashMap<String, String>>,
}

/// A comparison operator; `Invalid` stands for any operator that is not known.
#[derive(Debug, Clone, Copy, PartialEq, Eq, Structural)]
pub enum Operator {
    Lte,
    Gte,
    Lt,
    Gt,
    Invalid,
}

/// How the error budget of an SLO is counted; `Unknown` stands for any
/// method that is not known.
#[derive(Debug, Clone, Copy, PartialEq, Eq, Structural)]
pub enum BudgetingMethod {
    Occurrences,
    Timeslices,
    RatioTimeslices,
    Unknown,
}

/// Names whether `regex::Regex::new` accepts `pattern`.
pub uninterp spec fn regex_compiles(pattern: Seq<char>) -> bool;

/// Names whether the regular expression `pattern` matches somewhere in `haystack`.
pub uninterp spec fn regex_finds(pattern: Seq<char>, haystack: Seq<char>) -> bool;

/// Compiles `pattern` with `regex::Regex::new` and, where that succeeds,
/// tells with `regex::Regex::is_match` whether it matches in `haystack`.
/// Both results are named only: the regex crate's semantics (Unicode classes
/// such as `\d` among them) are not stated here.
#[verifier::external_body]
fn regex_is_match(pattern: &str, haystack: &str) -> (res: Option<bool>)
    ensures
        res is Some <==> regex_compiles(pattern@),
        res matches Some(b) ==> b == regex_finds(pattern@, haystack@),
{
    match regex::Regex::new(pattern) {
        Ok(re) => Some(re.is_match(haystack)),
        Err(_) => None,
    }
}

/// The pattern that a duration shorthand must match: a whole number followed
/// by a unit (minutes, hours, days, weeks, months, quarters or years).
pub open spec fn duration_pattern() -> Seq<char> {
    "^\\d+(m|h|d|w|M|Q|Y)$"@
}

/// The message that refuses a duration shorthand.
pub open spec fn duration_error(s: Seq<char>) -> Seq<char> {
    "Invalid duration format: `"@ + s
        + "`. Must be a positive integer followed by m/h/d/w/M/Q/Y."@
}

/// A duration such as `5m`, `1h` or `30d`.
#[derive(Debug, PartialEq)]
pub struct DurationShorthand(pub String);

impl DurationShorthand {
    /// The text of the duration.
    pub open spec fn as_view(&self) -> Seq<char> {
        self.0@
    }

    /// The text of the duration.
    pub fn as_str(&self) -> (res: &str)
        ensures
            res@ == self.0@,
    {
        self.0.as_str()
    }

    /// Accepts `s` as a duration when it matches the duration pattern;
    /// otherwise gives the message that refuses it.
    pub fn parse(s: String) -> (res: Result<DurationShorthand, String>)
        ensures
            res is Ok <==> regex_compiles(duration_pattern()) && regex_finds(duration_pattern(), s@),
            res matches Ok(d) ==> d.0@ == s@,
            res matches Err(m) ==> m@ == duration_error(s@),
    {
        let found = regex_is_match("^\\d+(m|h|d|w|M|Q|Y)$", s.as_str());
        match found {
            Some(true) => Ok(DurationShorthand(s)),
            _ => Err(join3(
                "Invalid duration format: `",
                s.as_str(),
                "`. Must be a positive integer followed by m/h/d/w/M/Q/Y.",
            )),
        }
    }
}

} // verus!
