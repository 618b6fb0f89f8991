//! A model of the GraphQL intermediate representation that the transforms
//! walk: programs made of operation and fragment definitions, each carrying
//! a list of directives. Names are interned string identifiers.

use vstd::prelude::*;

verus! {

/// An interned string identifier, as the interner hands them out.
pub type StringKey = u64;

/// A directive attached to an operation or fragment definition.
#[derive(Clone, Copy, PartialEq, Eq, Structural, Debug)]
pub struct Directive {
    pub name: StringKey,
}

/// An operation definition: a named operation with its directives.
#[derive(Debug)]
pub struct OperationDefinition {
    pub name: StringKey,
    pub directives: Vec<Directive>,
}

/// A fragment definition.
#[derive(Clone, Copy, PartialEq, Eq, Structural, Debug)]
pub struct FragmentDefinition {
    pub name: StringKey,
}

/// The mathematical image of an operation definition: its name and the
/// sequence of its directive names.
#[verifier::ext_equal]
pub struct OperationDefinitionView {
    pub name: StringKey,
    pub directives: Seq<StringKey>,
}

impl View for OperationDefinition {
    type V = OperationDefinitionView;

    open spec fn view(&self) -> OperationDefinitionView {
        OperationDefinitionView {
            name: self.name,
            directives: self.directives@.map_values(|d: Directive| d.name),
        }
    }
}

/// A program: the set of definitions one transform pass works on.
#[derive(Debug)]
pub struct Program {
    pub operations: Vec<OperationDefinition>,
    pub fragments: Vec<FragmentDefinition>,
}

/// The mathematical image of a program: the views of its operations and
/// the names of its fragments.
#[verifier::ext_equal]
pub struct ProgramView {
    pub operations: Seq<OperationDefinitionView>,
    pub fragments: Seq<StringKey>,
}

impl View for Program {
    type V = ProgramView;

    open spec fn view(&self) -> ProgramView {
        ProgramView {
            operations: self.operations@.map_values(|o: OperationDefinition| o@),
            fragments: self.fragments@.map_values(|f: FragmentDefinition| f.name),
        }
    }
}

/// Whether a definition with the given directive names carries the named
/// directive.
pub open spec fn has_directive(directives: Seq<StringKey>, name: StringKey) -> bool {
    exists|i: int| 0 <= i < directives.len() && directives[i] == name
}

impl OperationDefinition {
    /// Looks the named directive up in the definition's directive list, as
    /// a transform does before deciding what to do with the definition.
    pub fn named_directive(&self, name: StringKey) -> (found: bool)
        ensures
            found == has_directive(self@.directives, name),
    {
        let mut i: usize = 0;
        while i < self.directives.len()
            invariant
                0 <= i <= self.directives.len(),
                forall|j: int| 0 <= j < i ==> self@.directives[j] != name,
            decreases self.directives.len() - i,
        {
            if self.directives[i].name == name {
                assert(self@.directives[i as int] == name);
                return true;
            }
            i += 1;
        }
        false
    }

    /// A deep copy of the definition; the copy has the same view.
    pub fn duplicate(&self) -> (copy: OperationDefinition)
        ensures
            copy@ == self@,
    {
        let mut directives: Vec<Directive> = Vec::new();
        let mut i: usize = 0;
        while i < self.directives.len()
            invariant
                0 <= i <= self.directives.len(),
                directives@ == self.directives@.take(i as int),
            decreases self.directives.len() - i,
        {
            directives.push(self.directives[i]);
            assert(directives@ =~= self.directives@.take(i + 1 as int));
            i += 1;
        }
        assert(directives@ =~= self.directives@);
        let copy = OperationDefinition { name: self.name, directives };
        assert(copy@ =~= self@);
        copy
    }
}

} // verus!
