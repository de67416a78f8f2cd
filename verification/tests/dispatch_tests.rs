//! Scenario tests driving the registry and the per-node dispatch engine.

use wit_visitor::dispatch::{process_node, Diagnostic, DiagnosticKind, Registry};
use wit_visitor::return_types::{
    AnnotationResult, FunctionContribution, ResultContributions, TypeContribution, VisitAction,
};
use wit_visitor::schema::{Enum, EnumCase, Function, SchemaNode, TypeId};
use wit_visitor::visitor::Visitor;

/// A visitor that turns a comma-separated payload into derives on enums.
struct DeriveVisitor;

impl Visitor for DeriveVisitor {
    type Contributions = ResultContributions;

    fn target(&self) -> &str {
        "derive"
    }

    fn visit_enum(
        &mut self,
        annotation: &String,
        _enum: &Enum,
        _type_id: TypeId,
    ) -> Option<TypeContribution> {
        let mut contrib = TypeContribution::new();
        for derive in annotation.split(',').map(|s| s.trim()) {
            if !derive.is_empty() {
                contrib.add_derive(derive.to_string());
            }
        }
        Some(contrib)
    }
}

/// A visitor that adds one fixed attribute and one fixed prologue line to
/// every function node, whatever the payload.
struct MarkerVisitor {
    target: String,
    attr: String,
    line: String,
}

impl Visitor for MarkerVisitor {
    type Contributions = ResultContributions;

    fn target(&self) -> &str {
        &self.target
    }

    fn visit_function(
        &mut self,
        _annotation: &String,
        _func: &Function,
    ) -> Option<FunctionContribution> {
        let mut contrib = FunctionContribution::new();
        contrib.add_attribute(self.attr.clone());
        contrib.add_body_prefix(self.line.clone());
        Some(contrib)
    }
}

fn enum_node() -> SchemaNode {
    SchemaNode::Enum(
        Enum {
            cases: vec![
                EnumCase {
                    name: "on".to_string(),
                },
                EnumCase {
                    name: "off".to_string(),
                },
            ],
        },
        TypeId { index: 0 },
    )
}

fn function_node() -> SchemaNode {
    SchemaNode::Function(Function {
        name: "run".to_string(),
        params: vec!["input".to_string()],
        has_result: true,
    })
}

#[test]
fn scenario_derive_visitor_on_enum() {
    let mut registry: Registry<DeriveVisitor> = Registry::new();
    registry.register("derive".to_string(), DeriveVisitor).unwrap();

    let node = enum_node();
    let annotations = vec![("derive".to_string(), "Clone, Debug".to_string())];
    let mut diagnostics: Vec<Diagnostic> = Vec::new();

    let result = process_node(&mut registry, &node, &annotations, &mut diagnostics);

    assert!(diagnostics.is_empty());
    assert_eq!(result.type_contrib.derives, vec!["Clone".to_string(), "Debug".to_string()]);
    assert!(result.type_contrib.attributes.is_empty());
    assert_eq!(result.action, VisitAction::Continue);
}

#[test]
fn scenario_two_visitors_on_one_function() {
    let mut registry: Registry<MarkerVisitor> = Registry::new();
    registry
        .register(
            "trace".to_string(),
            MarkerVisitor {
                target: "trace".to_string(),
                attr: "#[trace_attr]".to_string(),
                line: "trace_entry();".to_string(),
            },
        )
        .unwrap();
    registry
        .register(
            "log".to_string(),
            MarkerVisitor {
                target: "log".to_string(),
                attr: "#[log_attr]".to_string(),
                line: "log_entry();".to_string(),
            },
        )
        .unwrap();

    let node = function_node();
    let annotations = vec![
        ("trace".to_string(), String::new()),
        ("log".to_string(), String::new()),
    ];
    let mut diagnostics: Vec<Diagnostic> = Vec::new();

    let result = process_node(&mut registry, &node, &annotations, &mut diagnostics);

    assert!(diagnostics.is_empty());
    // Both visitors' attributes and prologue lines, concatenated in the
    // order their targets were processed.
    assert_eq!(
        result.function_contrib.attributes,
        vec!["#[trace_attr]".to_string(), "#[log_attr]".to_string()]
    );
    assert_eq!(
        result.function_contrib.body_prefix,
        vec!["trace_entry();".to_string(), "log_entry();".to_string()]
    );
}

#[test]
fn scenario_unknown_target_is_isolated() {
    let mut registry: Registry<MarkerVisitor> = Registry::new();
    registry
        .register(
            "log".to_string(),
            MarkerVisitor {
                target: "log".to_string(),
                attr: "#[log_attr]".to_string(),
                line: "log_entry();".to_string(),
            },
        )
        .unwrap();

    let node = function_node();
    let annotations = vec![
        ("log".to_string(), String::new()),
        ("unknown_tool".to_string(), "whatever".to_string()),
    ];
    let mut diagnostics: Vec<Diagnostic> = Vec::new();

    let result = process_node(&mut registry, &node, &annotations, &mut diagnostics);

    // A recorded diagnostic names the unresolved target...
    assert_eq!(diagnostics.len(), 1);
    assert_eq!(diagnostics[0].kind, DiagnosticKind::UnresolvedTarget);
    assert_eq!(diagnostics[0].target, "unknown_tool");
    assert_eq!(
        diagnostics[0].message(),
        "no visitor registered for target 'unknown_tool'"
    );
    // ...and the result still holds the resolved target's contribution,
    // untouched.
    assert_eq!(result.function_contrib.attributes, vec!["#[log_attr]".to_string()]);
    assert_eq!(result.function_contrib.body_prefix, vec!["log_entry();".to_string()]);
    assert_eq!(result.action, VisitAction::Continue);
}

#[test]
fn scenario_only_unknown_targets() {
    let mut registry: Registry<MarkerVisitor> = Registry::new();
    let node = function_node();
    let annotations = vec![("unknown_tool".to_string(), "x".to_string())];
    let mut diagnostics: Vec<Diagnostic> = Vec::new();

    let result = process_node(&mut registry, &node, &annotations, &mut diagnostics);

    assert_eq!(diagnostics.len(), 1);
    assert_eq!(diagnostics[0].target, "unknown_tool");
    assert!(result.is_empty());
    assert_eq!(result.action, VisitAction::Continue);
}

#[test]
fn hook_invoked_once_per_node_and_target() {
    // Two annotations under one target: the hook runs once for the pair
    // (node, target), with the first occurrence's payload; a second
    // registered target gets its own single invocation.
    let mut registry: Registry<MarkerVisitor> = Registry::new();
    registry
        .register(
            "trace".to_string(),
            MarkerVisitor {
                target: "trace".to_string(),
                attr: "#[trace_attr]".to_string(),
                line: "trace_entry();".to_string(),
            },
        )
        .unwrap();
    registry
        .register(
            "log".to_string(),
            MarkerVisitor {
                target: "log".to_string(),
                attr: "#[log_attr]".to_string(),
                line: "log_entry();".to_string(),
            },
        )
        .unwrap();

    let node = function_node();
    let annotations = vec![
        ("trace".to_string(), "first".to_string()),
        ("trace".to_string(), "second".to_string()),
        ("log".to_string(), String::new()),
        ("trace".to_string(), "third".to_string()),
    ];
    let mut diagnostics: Vec<Diagnostic> = Vec::new();

    let result = process_node(&mut registry, &node, &annotations, &mut diagnostics);

    assert!(diagnostics.is_empty());
    // Exactly one attribute per (node, target) pair: the trace hook ran
    // once despite three trace annotations.
    assert_eq!(
        result.function_contrib.attributes,
        vec!["#[trace_attr]".to_string(), "#[log_attr]".to_string()]
    );
}

#[test]
fn duplicate_registration_is_refused() {
    let mut registry: Registry<DeriveVisitor> = Registry::new();
    assert!(registry.register("derive".to_string(), DeriveVisitor).is_ok());
    let second = registry.register("derive".to_string(), DeriveVisitor);
    let err = second.unwrap_err();
    assert_eq!(err.kind, DiagnosticKind::DuplicateRegistration);
    assert_eq!(err.target, "derive");
    assert_eq!(err.message(), "duplicate registration for target 'derive'");
    assert_eq!(registry.len(), 1);
    assert!(registry.contains_target("derive"));
    assert!(!registry.contains_target("log"));
}

#[test]
fn merge_rules_concatenate_and_keep_identity() {
    // Merging an empty contribution leaves the collected one unchanged.
    let mut result = AnnotationResult::new();
    result.add_derive("Clone".to_string());
    result.merge_type_contribution(TypeContribution::new());
    assert_eq!(result.type_contrib.derives, vec!["Clone".to_string()]);

    // Merging two non-empty contributions of the same kind concatenates
    // them in invocation order.
    let mut second = TypeContribution::new();
    second.add_derive("Debug".to_string());
    second.add_attribute("#[repr(C)]".to_string());
    result.merge_type_contribution(second);
    assert_eq!(result.type_contrib.derives, vec!["Clone".to_string(), "Debug".to_string()]);
    assert_eq!(result.type_contrib.attributes, vec!["#[repr(C)]".to_string()]);
}

#[test]
fn merge_action_any_skip_wins() {
    let mut result = AnnotationResult::new();
    result.merge_action(VisitAction::Continue);
    assert_eq!(result.action, VisitAction::Continue);
    result.merge_action(VisitAction::Skip);
    assert_eq!(result.action, VisitAction::Skip);
    result.merge_action(VisitAction::Continue);
    assert_eq!(result.action, VisitAction::Skip);
}

#[test]
fn field_and_case_keying_is_independent() {
    let mut result = AnnotationResult::new();
    result.add_field_attribute("x".to_string(), "#[a]".to_string());
    result.add_field_attribute("y".to_string(), "#[b]".to_string());
    result.add_field_attribute("x".to_string(), "#[c]".to_string());

    let x = result.field_contrib("x").unwrap();
    assert_eq!(x.attributes, vec!["#[a]".to_string(), "#[c]".to_string()]);
    let y = result.field_contrib("y").unwrap();
    assert_eq!(y.attributes, vec!["#[b]".to_string()]);
    assert!(result.field_contrib("z").is_none());

    result.add_case_attribute("ok".to_string(), "#[serde(rename = \"success\")]".to_string());
    assert_eq!(
        result.case_contrib("ok").unwrap().attributes,
        vec!["#[serde(rename = \"success\")]".to_string()]
    );
    assert!(result.case_contrib("err").is_none());
}

#[test]
fn contribution_order_is_preserved() {
    let mut contrib = TypeContribution::new();
    contrib.add_derive("a".to_string());
    contrib.add_derive("b".to_string());
    assert_eq!(contrib.derives, vec!["a".to_string(), "b".to_string()]);
}
