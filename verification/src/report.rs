//! The outcome of validating the documents of one file, and its rendering.

use vstd::prelude::*;
use vstd::string::*;
use crate::document::Document;
use crate::errors::{ErrorView, ParserError, error_text};
use crate::name_map::{NameMap, names_unique};
use crate::validation_context::{ValidationContext, views};

verus! {

/// Which documents of a file are valid, and the errors of the others.
#[derive(Debug)]
pub struct ValidationResult {
    path: String,
    valid: Vec<String>,
    invalid: NameMap<Vec<ParserError>>,
}

/// The lines that list valid documents.
pub open spec fn valid_lines(names: Seq<Seq<char>>) -> Seq<char>
    decreases names.len(),
{
    if names.len() == 0 {
        Seq::empty()
    } else {
        valid_lines(names.drop_last()) + "   \u{21b3}[\u{2705}] "@ + names.last() + "\n"@
    }
}

/// The lines that list the errors of a document.
pub open spec fn error_lines(errors: Seq<ErrorView>) -> Seq<char>
    decreases errors.len(),
{
    if errors.len() == 0 {
        Seq::empty()
    } else {
        error_lines(errors.drop_last()) + "        \u{21b3} "@ + error_text(errors.last()) + "\n"@
    }
}

/// The lines that list invalid documents and their errors.
pub open spec fn invalid_lines(entries: Seq<(Seq<char>, Vec<ParserError>)>) -> Seq<char>
    decreases entries.len(),
{
    if entries.len() == 0 {
        Seq::empty()
    } else {
        invalid_lines(entries.drop_last()) + "   \u{21b3}[\u{274c}] "@ + entries.last().0 + ":\n"@
            + error_lines(views(entries.last().1@))
    }
}

/// The names of the first `n` documents that validate without error.
pub open spec fn valid_names(docs: Seq<(Seq<char>, Document)>, all: NameMap<Document>, n: nat) -> Seq<Seq<char>>
    decreases n,
{
    if n == 0 {
        Seq::empty()
    } else if docs[n - 1].1.errors(all).len() == 0 {
        valid_names(docs, all, (n - 1) as nat).push(docs[n - 1].0)
    } else {
        valid_names(docs, all, (n - 1) as nat)
    }
}

/// Some of the first `n` documents is named `k` and has errors.
pub open spec fn invalid_among(docs: Seq<(Seq<char>, Document)>, all: NameMap<Document>, n: nat, k: Seq<char>) -> bool {
    exists|j: int| 0 <= j < n && #[trigger] docs[j].0 == k && docs[j].1.errors(all).len() > 0
}

impl ValidationResult {
    /// The path of the file.
    pub closed spec fn file(&self) -> Seq<char> {
        self.path@
    }

    /// The names of the valid documents, in the order in which they were added.
    pub closed spec fn valid_documents(&self) -> Seq<Seq<char>> {
        self.valid@.map_values(|s: String| s@)
    }

    /// The invalid documents with their errors.
    pub closed spec fn invalid_documents(&self) -> NameMap<Vec<ParserError>> {
        self.invalid
    }

    /// The file is valid: no document was found invalid.
    pub open spec fn spec_ok(&self) -> bool {
        self.invalid_documents()@.len() == 0
    }

    /// How the result is printed.
    pub open spec fn rendering(&self) -> Seq<char> {
        "[\u{1f4c4}] "@ + self.file() + ":\n"@ + valid_lines(self.valid_documents())
            + invalid_lines(self.invalid_documents()@)
    }

    /// The result of a file at `path` before any document is counted.
    pub fn new(path: String) -> (res: Self)
        ensures
            res.file() == path@,
            res.valid_documents() == Seq::<Seq<char>>::empty(),
            res.invalid_documents()@ == Seq::<(Seq<char>, Vec<ParserError>)>::empty(),
    {
        let res = Self { path, valid: Vec::new(), invalid: NameMap::new() };
        assert(res.valid_documents() =~= Seq::<Seq<char>>::empty());
        res
    }

    /// Counts the document `name` as valid.
    pub fn add_valid(&mut self, name: &str)
        ensures
            final(self).file() == old(self).file(),
            final(self).valid_documents() == old(self).valid_documents().push(name@),
            final(self).invalid_documents() == old(self).invalid_documents(),
    {
        self.valid.push(String::from_str(name));
        assert(self.valid_documents() =~= old(self).valid_documents().push(name@));
    }

    /// Counts the document `name` as invalid with `errors`, in place of any
    /// errors counted for it before.
    pub fn add_invalid(&mut self, name: &str, errors: Vec<ParserError>)
        ensures
            final(self).file() == old(self).file(),
            final(self).valid_documents() == old(self).valid_documents(),
            forall|k: Seq<char>| #[trigger] final(self).invalid_documents().lookup(k)
                == if k == name@ { Some(errors) } else { old(self).invalid_documents().lookup(k) },
            final(self).invalid_documents()@.len() > 0,
            old(self).invalid_documents()@.len() <= final(self).invalid_documents()@.len(),
    {
        self.invalid.insert(String::from_str(name), errors);
    }

    /// `Ok` when no document of the file was found invalid.
    pub fn result(&self) -> (res: Result<(), ()>)
        ensures
            res is Ok <==> self.spec_ok(),
    {
        if self.invalid.len() == 0 {
            Ok(())
        } else {
            Err(())
        }
    }

    /// The result as it is printed: the file, then a line per valid
    /// document, then a line per invalid document followed by a line per error.
    pub fn render(&self) -> (res: String)
        ensures
            res@ == self.rendering(),
    {
        let mut out = String::from_str("[\u{1f4c4}] ");
        out.append(self.path.as_str());
        out.append(":\n");
        let ghost head = out@;
        let mut i: usize = 0;
        while i < self.valid.len()
            invariant
                i <= self.valid@.len(),
                out@ == head + valid_lines(self.valid_documents().take(i as int)),
            decreases self.valid@.len() - i,
        {
            out.append("   \u{21b3}[\u{2705}] ");
            out.append(self.valid[i].as_str());
            out.append("\n");
            assert(self.valid_documents().take(i + 1).drop_last() =~= self.valid_documents().take(i as int));
            i = i + 1;
        }
        assert(self.valid_documents().take(i as int) =~= self.valid_documents());
        let ghost middle = out@;
        let n = self.invalid.len();
        let mut j: usize = 0;
        while j < n
            invariant
                n == self.invalid@.len(),
                j <= n,
                out@ == middle + invalid_lines(self.invalid@.take(j as int)),
            decreases n - j,
        {
            let (name, errors) = self.invalid.entry(j);
            out.append("   \u{21b3}[\u{274c}] ");
            out.append(name.as_str());
            out.append(":\n");
            let ghost before_errors = out@;
            let mut e: usize = 0;
            while e < errors.len()
                invariant
                    e <= errors@.len(),
                    out@ == before_errors + error_lines(views(errors@).take(e as int)),
                decreases errors@.len() - e,
            {
                out.append("        \u{21b3} ");
                let t = errors[e].text();
                out.append(t.as_str());
                out.append("\n");
                assert(views(errors@).take(e + 1).drop_last() =~= views(errors@).take(e as int));
                e = e + 1;
            }
            assert(views(errors@).take(e as int) =~= views(errors@));
            assert(self.invalid@.take(j + 1).drop_last() =~= self.invalid@.take(j as int));
            j = j + 1;
        }
        assert(self.invalid@.take(j as int) =~= self.invalid@);
        out
    }
}

/// Validates each document of `docs` (a file), resolving references in
/// `all_docs` (every file), and counts it in `result` as valid when it has no
/// error, else as invalid with its errors.
pub fn validate_documents(result: &mut ValidationResult, docs: &NameMap<Document>, all_docs: &NameMap<Document>)
    requires
        forall|j: int| 0 <= j < docs@.len() ==> (#[trigger] docs@[j]).1.validatable(*all_docs),
    ensures
        final(result).file() == old(result).file(),
        final(result).valid_documents() == old(result).valid_documents() + valid_names(docs@, *all_docs, docs@.len()),
        forall|j: int| 0 <= j < docs@.len() && (#[trigger] docs@[j]).1.errors(*all_docs).len() > 0 ==>
            (final(result).invalid_documents().lookup(docs@[j].0) matches Some(v) && views(v@) == docs@[j].1.errors(*all_docs)),
        forall|k: Seq<char>| !invalid_among(docs@, *all_docs, docs@.len(), k) ==>
            #[trigger] final(result).invalid_documents().lookup(k) == old(result).invalid_documents().lookup(k),
        final(result).spec_ok() <==> old(result).spec_ok()
            && forall|j: int| 0 <= j < docs@.len() ==> (#[trigger] docs@[j]).1.errors(*all_docs).len() == 0,
{
    let n = docs.len();
    let mut i: usize = 0;
    while i < n
        invariant
            n == docs@.len(),
            i <= n,
            names_unique(docs@),
            forall|j: int| 0 <= j < docs@.len() ==> (#[trigger] docs@[j]).1.validatable(*all_docs),
            result.file() == old(result).file(),
            result.valid_documents() == old(result).valid_documents() + valid_names(docs@, *all_docs, i as nat),
            forall|j: int| 0 <= j < i && (#[trigger] docs@[j]).1.errors(*all_docs).len() > 0 ==>
                (result.invalid_documents().lookup(docs@[j].0) matches Some(v) && views(v@) == docs@[j].1.errors(*all_docs)),
            forall|k: Seq<char>| !invalid_among(docs@, *all_docs, i as nat, k) ==>
                #[trigger] result.invalid_documents().lookup(k) == old(result).invalid_documents().lookup(k),
            result.spec_ok() <==> old(result).spec_ok()
                && forall|j: int| 0 <= j < i ==> (#[trigger] docs@[j]).1.errors(*all_docs).len() == 0,
        decreases n - i,
    {
        let (name, doc) = docs.entry(i);
        let mut ctx = ValidationContext::new();
        assert(docs@[i as int].1.validatable(*all_docs));
        doc.validate(all_docs, &mut ctx);
        let ghost errs = doc.errors(*all_docs);
        let ghost prev = *result;
        match ctx.result() {
            Ok(_) => {
                result.add_valid(name.as_str());
                assert(result.valid_documents() =~= old(result).valid_documents() + valid_names(docs@, *all_docs, (i + 1) as nat));
                assert forall|k: Seq<char>| !invalid_among(docs@, *all_docs, (i + 1) as nat, k) implies
                    #[trigger] result.invalid_documents().lookup(k) == old(result).invalid_documents().lookup(k) by {
                    if invalid_among(docs@, *all_docs, i as nat, k) {
                        let j = choose|j: int| 0 <= j < i && #[trigger] docs@[j].0 == k && docs@[j].1.errors(*all_docs).len() > 0;
                        assert(0 <= j < i + 1 && docs@[j].0 == k && docs@[j].1.errors(*all_docs).len() > 0);
                    }
                }
            },
            Err(errors) => {
                result.add_invalid(name.as_str(), errors);
                assert(result.valid_documents() =~= old(result).valid_documents() + valid_names(docs@, *all_docs, (i + 1) as nat));
                assert forall|j: int| 0 <= j < i + 1 && (#[trigger] docs@[j]).1.errors(*all_docs).len() > 0 implies
                    (result.invalid_documents().lookup(docs@[j].0) matches Some(v) && views(v@) == docs@[j].1.errors(*all_docs)) by {
                    if j < i {
                        assert(docs@[j].0 != docs@[i as int].0);
                    }
                }
                assert forall|k: Seq<char>| !invalid_among(docs@, *all_docs, (i + 1) as nat, k) implies
                    #[trigger] result.invalid_documents().lookup(k) == old(result).invalid_documents().lookup(k) by {
                    if k == docs@[i as int].0 {
                        assert(docs@[i as int].0 == k && docs@[i as int].1.errors(*all_docs).len() > 0);
                        assert(invalid_among(docs@, *all_docs, (i + 1) as nat, k));
                    }
                    if invalid_among(docs@, *all_docs, i as nat, k) {
                        let j = choose|j: int| 0 <= j < i && #[trigger] docs@[j].0 == k && docs@[j].1.errors(*all_docs).len() > 0;
                        assert(0 <= j < i + 1 && docs@[j].0 == k && docs@[j].1.errors(*all_docs).len() > 0);
                    }
                }
            },
        }
        i = i + 1;
    }
}

/// Whether every file was found valid.
pub fn all_valid(results: &Vec<ValidationResult>) -> (res: bool)
    ensures
        res == forall|i: int| 0 <= i < results@.len() ==> (#[trigger] results@[i]).spec_ok(),
{
    let mut i: usize = 0;
    while i < results.len()
        invariant
            i <= results@.len(),
            forall|j: int| 0 <= j < i ==> (#[trigger] results@[j]).spec_ok(),
        decreases results@.len() - i,
    {
        if results[i].result().is_err() {
            return false;
        }
        i = i + 1;
    }
    true
}

} // verus!
