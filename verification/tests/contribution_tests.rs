//! Tests for the builder-style contribution accumulators.

use wit_visitor::contribution::{
    FieldContribution, FunctionContribution, ModuleContribution, TypeContribution,
};

#[test]
fn contribution_test_type_contribution() {
    let mut contrib = TypeContribution::new();
    assert!(contrib.is_empty());

    contrib.add_derive("Clone".to_string());
    contrib.add_derive("Debug".to_string());
    contrib.add_attribute("#[non_exhaustive]".to_string());
    contrib.add_doc_comment("This is a test type".to_string());
    contrib.add_code("impl TestType { }".to_string());

    assert!(!contrib.is_empty());
    assert_eq!(contrib.derives().len(), 2);
    assert_eq!(contrib.attributes().len(), 1);
    assert_eq!(contrib.doc_comments().len(), 1);
    assert_eq!(contrib.additional_code().len(), 1);
}

#[test]
fn contribution_test_field_contribution() {
    let mut contrib = FieldContribution::new();
    assert!(contrib.is_empty());

    contrib.add_attribute("#[serde(skip)]".to_string());
    contrib.add_doc_comment("A field".to_string());

    assert!(!contrib.is_empty());
    assert_eq!(contrib.attributes().len(), 1);
    assert_eq!(contrib.doc_comments().len(), 1);
}

#[test]
fn contribution_test_function_contribution() {
    let mut contrib = FunctionContribution::new();
    assert!(contrib.is_empty());

    contrib.add_attribute("#[inline]".to_string());
    contrib.prepend_body("let x = 1;".to_string());
    contrib.append_body("println!(\"done\");".to_string());

    assert!(!contrib.is_empty());
    assert_eq!(contrib.attributes().len(), 1);
    assert_eq!(contrib.body_prefix().len(), 1);
    assert_eq!(contrib.body_suffix().len(), 1);
}

#[test]
fn test_module_contribution() {
    let mut contrib = ModuleContribution::new();
    assert!(contrib.is_empty());

    contrib.add_use("use std::collections::HashMap;".to_string());
    contrib.add_code("pub const VERSION: u32 = 1;".to_string());

    assert!(!contrib.is_empty());
    assert_eq!(contrib.use_statements().len(), 1);
    assert_eq!(contrib.additional_code().len(), 1);
}
