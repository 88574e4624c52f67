//! The collection of errors that validation reports, per document and per file.

use vstd::prelude::*;
use crate::errors::{ErrorView, ParserError};

verus! {

/// The views of a sequence of errors.
pub open spec fn views(errors: Seq<ParserError>) -> Seq<ErrorView> {
    errors.map_values(|e: ParserError| e@)
}

/// The errors that the validation of one document has found so far, in the
/// order in which they were found.
pub struct ValidationContext {
    errors: Vec<ParserError>,
}

impl View for ValidationContext {
    type V = Seq<ErrorView>;

    closed spec fn view(&self) -> Seq<ErrorView> {
        views(self.errors@)
    }
}

impl ValidationContext {
    /// The errors held, in the order in which they were recorded.
    pub closed spec fn held(&self) -> Seq<ParserError> {
        self.errors@
    }

    /// A context with no error.
    pub fn new() -> (res: Self)
        ensures
            res@ == Seq::<ErrorView>::empty(),
            res.held() == Seq::<ParserError>::empty(),
    {
        let res = Self { errors: Vec::new() };
        assert(res@ =~= Seq::<ErrorView>::empty());
        res
    }

    /// Records one more error.
    pub fn push(&mut self, error: ParserError)
        ensures
            final(self)@ == old(self)@.push(error@),
            final(self).held() == old(self).held().push(error),
    {
        self.errors.push(error);
        assert(views(self.errors@) =~= views(old(self).errors@).push(error@));
    }

    /// Moves the errors of `other` behind those of `self`; `other` is left empty.
    pub fn combine(&mut self, other: &mut Self)
        ensures
            final(self)@ == old(self)@ + old(other)@,
            final(other)@ == Seq::<ErrorView>::empty(),
            final(self).held() == old(self).held() + old(other).held(),
            final(other).held() == Seq::<ParserError>::empty(),
    {
        self.errors.append(&mut other.errors);
        assert(views(self.errors@) =~= views(old(self).errors@) + views(old(other).errors@));
        assert(views(other.errors@) =~= Seq::<ErrorView>::empty());
    }

    /// `Ok` when no error was recorded, else the errors in the order in which
    /// they were recorded.
    pub fn result(self) -> (res: Result<(), Vec<ParserError>>)
        ensures
            res is Ok <==> self@.len() == 0,
            res matches Err(errors) ==> views(errors@) == self@ && errors@ == self.held(),
    {
        if self.errors.is_empty() {
            Ok(())
        } else {
            Err(self.errors)
        }
    }
}

} // verus!
