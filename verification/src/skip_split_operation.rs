//! A transform that removes split operations: operation definitions that
//! carry the custom module directive. Intended for use when e.g. printing
//! queries to send to a GraphQL server.

use vstd::prelude::*;

use crate::graphql_ir::{
    has_directive, FragmentDefinition, OperationDefinition, OperationDefinitionView, Program,
    StringKey,
};

verus! {

/// The interned name of the custom module directive that marks split
/// operations.
pub const CUSTOM_MODULE_DIRECTIVE_NAME: StringKey = 109;

/// Whether an operation is a split operation: it carries the custom module
/// directive.
pub open spec fn is_split_operation(operation: OperationDefinitionView) -> bool {
    has_directive(operation.directives, CUSTOM_MODULE_DIRECTIVE_NAME)
}

/// The operations that survive the transform: those without the custom
/// module directive, in their original order.
pub open spec fn without_split_operations(
    operations: Seq<OperationDefinitionView>,
) -> Seq<OperationDefinitionView> {
    operations.filter(|o: OperationDefinitionView| !is_split_operation(o))
}

/// What one visit of a transform decides about a definition.
pub enum Transformed<T> {
    Keep,
    Replace(T),
    Delete,
}

pub struct SkipSplitOperation;

impl SkipSplitOperation {
    /// Deletes operations that carry the custom module directive and keeps
    /// all others unchanged.
    pub fn transform_operation(
        &mut self,
        operation: &OperationDefinition,
    ) -> (decision: Transformed<OperationDefinition>)
        ensures
            is_split_operation(operation@) ==> decision is Delete,
            !is_split_operation(operation@) ==> decision is Keep,
    {
        if operation.named_directive(CUSTOM_MODULE_DIRECTIVE_NAME) {
            Transformed::Delete
        } else {
            Transformed::Keep
        }
    }

    /// Keeps every fragment unchanged.
    pub fn transform_fragment(
        &mut self,
        _fragment: &FragmentDefinition,
    ) -> (decision: Transformed<FragmentDefinition>)
        ensures
            decision is Keep,
    {
        Transformed::Keep
    }
}

/// Removes every split operation from the program: the result holds, in
/// order, exactly the operations without the custom module directive, and
/// all fragments unchanged.
pub fn skip_split_operation(program: &Program) -> (result: Program)
    ensures
        result@.operations == without_split_operations(program@.operations),
        result@.fragments == program@.fragments,
{
    let mut transform = SkipSplitOperation {};
    let mut operations: Vec<OperationDefinition> = Vec::new();
    let mut i: usize = 0;
    proof {
        assert(operations@.map_values(|o: OperationDefinition| o@) =~= without_split_operations(
            program@.operations.take(0),
        ));
    }
    while i < program.operations.len()
        invariant
            0 <= i <= program.operations.len(),
            operations@.map_values(|o: OperationDefinition| o@) == without_split_operations(
                program@.operations.take(i as int),
            ),
        decreases program.operations.len() - i,
    {
        let ghost prefix = program@.operations.take(i as int);
        let ghost next = program@.operations.take(i as int + 1);
        proof {
            assert(next.drop_last() =~= prefix);
            assert(next.last() == program@.operations[i as int]);
        }
        let decision = transform.transform_operation(&program.operations[i]);
        match decision {
            Transformed::Keep => {
                operations.push(program.operations[i].duplicate());
                proof {
                    reveal_with_fuel(Seq::<_>::filter, 2);
                    assert(!is_split_operation(next.last()));
                    assert(without_split_operations(next) == without_split_operations(
                        prefix,
                    ).push(next.last()));
                    assert(operations@.map_values(|o: OperationDefinition| o@)
                        =~= without_split_operations(next));
                }
            },
            Transformed::Delete => {
                proof {
                    reveal_with_fuel(Seq::<_>::filter, 2);
                    assert(is_split_operation(next.last()));
                    assert(without_split_operations(next) == without_split_operations(prefix));
                    assert(operations@.map_values(|o: OperationDefinition| o@)
                        =~= without_split_operations(next));
                }
            },
            Transformed::Replace(_) => {
                proof {
                    assert(false);
                }
            },
        }
        i += 1;
    }
    let mut fragments: Vec<FragmentDefinition> = Vec::new();
    let mut j: usize = 0;
    while j < program.fragments.len()
        invariant
            0 <= j <= program.fragments.len(),
            fragments@ == program.fragments@.take(j as int),
        decreases program.fragments.len() - j,
    {
        fragments.push(program.fragments[j]);
        assert(fragments@ =~= program.fragments@.take(j as int + 1));
        j += 1;
    }
    assert(fragments@ =~= program.fragments@);
    let result = Program { operations, fragments };
    proof {
        assert(program@.operations.take(program.operations.len() as int) =~= program@.operations);
        assert(result@.fragments =~= program@.fragments);
        assert(result@.operations == operations@.map_values(|o: OperationDefinition| o@));
    }
    result
}

} // verus!
