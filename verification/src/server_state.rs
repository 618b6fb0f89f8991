//! The server state: the diagnostics currently published to the editor.
//! A successful check cycle clears them; a failed one replaces them with
//! the diagnostics of its failure, in one step.

use vstd::prelude::*;

use crate::errors::{BuildProjectError, SyntaxError};

verus! {

/// One editor-visible diagnostic.
#[derive(Clone, Copy, PartialEq, Eq, Structural, Debug)]
pub enum Diagnostic {
    Syntax { file: u64, detail: u64 },
    Build { project: u64, detail: u64 },
}

/// The diagnostics that publishing a cycle-wide parse failure shows.
pub open spec fn syntax_diagnostics(errors: Seq<SyntaxError>) -> Seq<Diagnostic> {
    errors.map_values(|e: SyntaxError| Diagnostic::Syntax { file: e.file, detail: e.detail })
}

/// The diagnostics that publishing per-project build failures shows.
pub open spec fn build_diagnostics(errors: Seq<BuildProjectError>) -> Seq<Diagnostic> {
    errors.map_values(
        |e: BuildProjectError| Diagnostic::Build { project: e.project, detail: e.detail },
    )
}

/// The currently published diagnostics; its view is their sequence.
pub struct ServerState {
    published: Vec<Diagnostic>,
}

impl View for ServerState {
    type V = Seq<Diagnostic>;

    closed spec fn view(&self) -> Seq<Diagnostic> {
        self.published@
    }
}

impl ServerState {
    /// A state with nothing published.
    pub fn new() -> (state: ServerState)
        ensures
            state@ == Seq::<Diagnostic>::empty(),
    {
        let state = ServerState { published: Vec::new() };
        proof {
            assert(state@ =~= Seq::<Diagnostic>::empty());
        }
        state
    }

    /// The published diagnostics, for observation from outside.
    pub fn diagnostics(&self) -> (published: &Vec<Diagnostic>)
        ensures
            published@ == self@,
    {
        &self.published
    }

    /// Clears every published diagnostic, as a successful cycle does.
    pub fn clear_diagnostics(&mut self)
        ensures
            final(self)@ == Seq::<Diagnostic>::empty(),
    {
        self.published = Vec::new();
        proof {
            assert(self@ =~= Seq::<Diagnostic>::empty());
        }
    }

    /// Replaces the published diagnostics with the locations of a
    /// cycle-wide parse failure.
    pub fn report_syntax_errors(&mut self, errors: &Vec<SyntaxError>)
        ensures
            final(self)@ == syntax_diagnostics(errors@),
    {
        let mut published: Vec<Diagnostic> = Vec::new();
        let mut i: usize = 0;
        while i < errors.len()
            invariant
                0 <= i <= errors.len(),
                published@ == syntax_diagnostics(errors@.take(i as int)),
            decreases errors.len() - i,
        {
            published.push(Diagnostic::Syntax {
                file: errors[i].file,
                detail: errors[i].detail,
            });
            proof {
                assert(published@ =~= syntax_diagnostics(errors@.take(i as int + 1)));
            }
            i += 1;
        }
        self.published = published;
        proof {
            assert(errors@.take(errors@.len() as int) =~= errors@);
        }
    }

    /// Replaces the published diagnostics with the per-project build
    /// failures of a failed cycle.
    pub fn report_build_project_errors(&mut self, errors: &Vec<BuildProjectError>)
        ensures
            final(self)@ == build_diagnostics(errors@),
    {
        let mut published: Vec<Diagnostic> = Vec::new();
        let mut i: usize = 0;
        while i < errors.len()
            invariant
                0 <= i <= errors.len(),
                published@ == build_diagnostics(errors@.take(i as int)),
            decreases errors.len() - i,
        {
            published.push(Diagnostic::Build {
                project: errors[i].project,
                detail: errors[i].detail,
            });
            proof {
                assert(published@ =~= build_diagnostics(errors@.take(i as int + 1)));
            }
            i += 1;
        }
        self.published = published;
        proof {
            assert(errors@.take(errors@.len() as int) =~= errors@);
        }
    }
}

} // verus!
