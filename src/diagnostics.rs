use vstd::prelude::*;

use crate::span::Span;

verus! {

/// Proof that an error was reported. Only a [`DiagCtxt`] hands one out.
#[derive(Clone, Copy, Debug, PartialEq, Eq, Structural)]
pub struct ErrorGuaranteed {
    index: usize,
}

impl ErrorGuaranteed {
    /// The position, in its sink, of the diagnostic this token stands for.
    pub closed spec fn spec_index(self) -> usize {
        self.index
    }

    /// The position, in its sink, of the diagnostic this token stands for.
    pub fn index(&self) -> (r: usize)
        ensures
            r == self.spec_index(),
    {
        self.index
    }
}

/// A reported error: a message at a location, with a note at a second location.
#[derive(Clone, Debug)]
pub struct Diagnostic {
    pub message: String,
    pub span: Span,
    pub note_span: Span,
    pub note: String,
}

/// Collects the errors reported during analysis.
#[derive(Debug)]
pub struct DiagCtxt {
    diagnostics: Vec<Diagnostic>,
}

impl DiagCtxt {
    /// The errors reported so far, oldest first.
    pub closed spec fn spec_diagnostics(&self) -> Seq<Diagnostic> {
        self.diagnostics@
    }

    /// Creates a sink with no errors in it.
    pub fn new() -> (r: DiagCtxt)
        ensures
            r.spec_diagnostics() == Seq::<Diagnostic>::empty(),
    {
        DiagCtxt { diagnostics: Vec::new() }
    }

    /// The errors reported so far, oldest first.
    pub fn diagnostics(&self) -> (r: &Vec<Diagnostic>)
        ensures
            r@ == self.spec_diagnostics(),
    {
        &self.diagnostics
    }

    /// Reports an error with a note, and returns the proof that it was reported.
    pub fn err(&mut self, message: String, span: Span, note_span: Span, note: String) -> (r:
        ErrorGuaranteed)
        ensures
            final(self).spec_diagnostics() == old(self).spec_diagnostics().push(
                Diagnostic { message, span, note_span, note },
            ),
            r.spec_index() == old(self).spec_diagnostics().len(),
    {
        let index = self.diagnostics.len();
        self.diagnostics.push(Diagnostic { message, span, note_span, note });
        ErrorGuaranteed { index }
    }
}

} // verus!
