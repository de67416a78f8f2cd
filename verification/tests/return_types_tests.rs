//! Tests for the per-node aggregate and its contribution types.

use wit_visitor::return_types::{
    AnnotationResult, FieldContribution, FunctionContribution, TypeContribution, VisitAction,
};

#[test]
fn return_types_test_type_contribution() {
    let mut contrib = TypeContribution::new();
    assert!(contrib.is_empty());

    contrib.add_derive("Clone".to_string());
    contrib.add_attribute("#[repr(C)]".to_string());
    assert!(!contrib.is_empty());

    assert_eq!(contrib.derives.len(), 1);
    assert_eq!(contrib.attributes.len(), 1);
}

#[test]
fn return_types_test_field_contribution() {
    let mut contrib = FieldContribution::new();
    assert!(contrib.is_empty());

    contrib.add_attribute("#[serde(rename = \"foo\")]".to_string());
    assert!(!contrib.is_empty());
    assert_eq!(contrib.attributes.len(), 1);
}

#[test]
fn test_annotation_result() {
    let mut result = AnnotationResult::new();
    assert!(result.is_empty());
    assert_eq!(result.action, VisitAction::Continue);

    result.add_derive("Clone".to_string());
    result.add_field_attribute("username".to_string(), "#[serde(rename = \"user\")]".to_string());
    assert!(!result.is_empty());

    assert_eq!(result.type_contrib.derives.len(), 1);
    assert_eq!(result.field_contrib("username").unwrap().attributes.len(), 1);
}

#[test]
fn test_visit_action() {
    let cont = AnnotationResult::continue_with();
    assert_eq!(cont.action, VisitAction::Continue);

    let skip = AnnotationResult::skip();
    assert_eq!(skip.action, VisitAction::Skip);
}

#[test]
fn return_types_test_function_contribution() {
    let mut contrib = FunctionContribution::new();
    assert!(contrib.is_empty());

    contrib.add_attribute("#[inline]".to_string());
    contrib.add_body_prefix("println!(\"start\");".to_string());
    assert!(!contrib.is_empty());

    assert_eq!(contrib.attributes.len(), 1);
    assert_eq!(contrib.body_prefix.len(), 1);
}
