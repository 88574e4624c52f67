//! Services.

use vstd::prelude::*;
use vstd::string::*;
use crate::common::{Kind, Metadata};
use crate::errors::{ErrorView, ParserError, verr, error_if};
use crate::validation_context::ValidationContext;

verus! {

/// A service document.
#[derive(Debug, PartialEq)]
pub struct ServiceDoc {
    pub kind: Option<Kind>,
    pub metadata: Metadata,
    pub spec: ServiceSpec,
}

/// What a service document specifies.
#[derive(Debug, PartialEq)]
pub struct ServiceSpec {
    pub description: Option<String>,
}

impl ServiceDoc {
    /// The errors of a service document: its kind must be `Service`.
    pub open spec fn errors(&self) -> Seq<ErrorView> {
        error_if(self.kind != Some(Kind::Service), verr(".kind"@, "Expected kind to be Service."@))
    }

    /// Records the errors of the document.
    pub fn validate(&self, ctx: &mut ValidationContext)
        ensures
            final(ctx)@ == old(ctx)@ + self.errors(),
    {
        if !matches!(self.kind, Some(Kind::Service)) {
            ctx.push(ParserError::validation(String::from_str(".kind"), "Expected kind to be Service."));
        }
        assert(ctx@ =~= old(ctx)@ + self.errors());
    }
}

} // verus!
