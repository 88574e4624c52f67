//! Alert notification targets.

use vstd::prelude::*;
use crate::common::{Kind, Metadata, path_or, opt_view, unwrap_path};
use crate::errors::{ErrorView, ParserError, verr, error_if};
use crate::text::join;
use crate::validation_context::ValidationContext;

verus! {

/// An alert notification target document.
#[derive(Debug, PartialEq)]
pub struct AlertNotificationTargetDoc {
    pub kind: Option<Kind>,
    pub metadata: Metadata,
    pub spec: AlertNotificationTargetSpec,
}

/// Where alerts are sent.
#[derive(Debug, PartialEq)]
pub struct AlertNotificationTargetSpec {
    pub target: String,
    pub description: Option<String>,
}

impl AlertNotificationTargetSpec {
    /// The errors of a target at `path`: the target must not be empty.
    pub open spec fn errors(&self, path: Seq<char>) -> Seq<ErrorView> {
        error_if(self.target@.len() == 0, verr(path + ".target"@, "Target must not be empty."@))
    }

    /// Records the errors of the target at `path`.
    pub fn validate(&self, path: &str, ctx: &mut ValidationContext)
        ensures
            final(ctx)@ == old(ctx)@ + self.errors(path@),
    {
        if self.target.as_str().is_empty() {
            ctx.push(ParserError::validation(join(path, ".target"), "Target must not be empty."));
        }
        assert(ctx@ =~= old(ctx)@ + self.errors(path@));
    }
}

impl AlertNotificationTargetDoc {
    /// The errors of a target document at `path`: its kind must be
    /// `AlertNotificationTarget`, then those of its spec.
    pub open spec fn errors(&self, path: Seq<char>) -> Seq<ErrorView> {
        error_if(
            self.kind != Some(Kind::AlertNotificationTarget),
            verr(path + ".kind"@, "Expected kind to be AlertNotificationTarget."@),
        ) + self.spec.errors(path + ".spec"@)
    }

    /// Records the errors of the document at `path` (the empty path by default).
    pub fn validate(&self, path: Option<&str>, ctx: &mut ValidationContext)
        ensures
            final(ctx)@ == old(ctx)@ + self.errors(path_or(opt_view(path), Seq::empty())),
    {
        let path = unwrap_path(path, "");
        proof { reveal_strlit(""); }
        if !matches!(self.kind, Some(Kind::AlertNotificationTarget)) {
            ctx.push(ParserError::validation(join(path, ".kind"), "Expected kind to be AlertNotificationTarget."));
        }
        let ghost mid = ctx@;
        self.spec.validate(join(path, ".spec").as_str(), ctx);
        assert(ctx@ =~= old(ctx)@ + self.errors(path@));
    }
}

} // verus!
