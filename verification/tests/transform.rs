use relay_lsp::graphql_ir::{Directive, FragmentDefinition, OperationDefinition, Program};
use relay_lsp::skip_split_operation::{
    skip_split_operation, SkipSplitOperation, Transformed, CUSTOM_MODULE_DIRECTIVE_NAME,
};

fn operation(name: u64, directives: Vec<u64>) -> OperationDefinition {
    OperationDefinition {
        name,
        directives: directives.into_iter().map(|name| Directive { name }).collect(),
    }
}

#[test]
fn transform_operation_deletes_split_operations() {
    let mut transform = SkipSplitOperation {};
    let split = operation(1, vec![CUSTOM_MODULE_DIRECTIVE_NAME]);
    assert!(matches!(
        transform.transform_operation(&split),
        Transformed::Delete
    ));
}

#[test]
fn transform_operation_keeps_plain_operations() {
    let mut transform = SkipSplitOperation {};
    let plain = operation(2, vec![3, 4]);
    assert!(matches!(
        transform.transform_operation(&plain),
        Transformed::Keep
    ));
}

#[test]
fn transform_fragment_keeps_every_fragment() {
    let mut transform = SkipSplitOperation {};
    let fragment = FragmentDefinition { name: 5 };
    assert!(matches!(
        transform.transform_fragment(&fragment),
        Transformed::Keep
    ));
}

#[test]
fn skip_split_operation_removes_only_split_operations() {
    let program = Program {
        operations: vec![
            operation(1, vec![CUSTOM_MODULE_DIRECTIVE_NAME]),
            operation(2, vec![]),
            operation(3, vec![7, CUSTOM_MODULE_DIRECTIVE_NAME]),
            operation(4, vec![7]),
        ],
        fragments: vec![FragmentDefinition { name: 8 }, FragmentDefinition { name: 9 }],
    };
    let result = skip_split_operation(&program);
    let names: Vec<u64> = result.operations.iter().map(|o| o.name).collect();
    assert_eq!(names, vec![2, 4]);
    assert_eq!(result.operations[1].directives.len(), 1);
    assert_eq!(result.operations[1].directives[0].name, 7);
    let fragments: Vec<u64> = result.fragments.iter().map(|f| f.name).collect();
    assert_eq!(fragments, vec![8, 9]);
}

#[test]
fn skip_split_operation_keeps_everything_without_the_directive() {
    let program = Program {
        operations: vec![operation(1, vec![]), operation(2, vec![6])],
        fragments: vec![],
    };
    let result = skip_split_operation(&program);
    assert_eq!(result.operations.len(), 2);
    assert_eq!(result.operations[0].name, 1);
    assert_eq!(result.operations[1].name, 2);
    assert!(result.fragments.is_empty());
}

#[test]
fn skip_split_operation_on_empty_program() {
    let program = Program {
        operations: vec![],
        fragments: vec![],
    };
    let result = skip_split_operation(&program);
    assert!(result.operations.is_empty());
    assert!(result.fragments.is_empty());
}
