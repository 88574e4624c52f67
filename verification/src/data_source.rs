//! Data sources.

use vstd::prelude::*;
use crate::common::{Kind, Metadata, path_or, opt_view, unwrap_path};
use crate::errors::{ErrorView, ParserError, verr, error_if};
use crate::text::{blank, is_blank, join};
use crate::validation_context::ValidationContext;

verus! {

/// A data source document.
#[derive(Debug, PartialEq)]
pub struct DataSourceDoc {
    pub kind: Option<Kind>,
    pub metadata: Metadata,
    pub spec: DataSourceSpec,
}

/// What a data source specifies.
#[derive(Debug, PartialEq)]
pub struct DataSourceSpec {
    pub description: Option<String>,
    pub type_: String,
    pub connection_details: Option<serde_yaml::Value>,
}

impl DataSourceDoc {
    /// The errors of a data source at `path`: its kind must be `DataSource`
    /// and its type must not be blank.
    pub open spec fn errors(&self, path: Seq<char>) -> Seq<ErrorView> {
        error_if(self.kind != Some(Kind::DataSource), verr(path + ".kind"@, "Expected kind to be DataSource."@))
            + error_if(blank(self.spec.type_@), verr(path + ".spec.type"@, "Type must be a non-empty string."@))
    }

    /// Records the errors of the data source at `path` (the empty path by default).
    pub fn validate(&self, path: Option<&str>, ctx: &mut ValidationContext)
        ensures
            final(ctx)@ == old(ctx)@ + self.errors(path_or(opt_view(path), Seq::empty())),
    {
        let path = unwrap_path(path, "");
        proof { reveal_strlit(""); }
        if !matches!(self.kind, Some(Kind::DataSource)) {
            ctx.push(ParserError::validation(join(path, ".kind"), "Expected kind to be DataSource."));
        }
        if is_blank(self.spec.type_.as_str()) {
            ctx.push(ParserError::validation(join(path, ".spec.type"), "Type must be a non-empty string."));
        }
        assert(ctx@ =~= old(ctx)@ + self.errors(path@));
    }
}

} // verus!
