//! Example visitor implementations and checks of their targets.

use wit_visitor::contribution_types::RustFunctionContribution;
use wit_visitor::return_types::{
    FunctionContribution, ModuleContribution, ResultContributions, TypeContribution,
    VariantCaseContribution,
};
use wit_visitor::schema::{Case, Enum, Function, Interface, TypeId};
use wit_visitor::visitor::Visitor;

/// A visitor that adds "deprecated" annotations
struct DeprecatedVisitor;

impl Visitor for DeprecatedVisitor {
    type Contributions = ResultContributions;

    fn target(&self) -> &str {
        "deprecated"
    }

    fn visit_function(
        &mut self,
        annotation: &String,
        _func: &Function,
    ) -> Option<FunctionContribution> {
        let mut contrib = FunctionContribution::new();
        if annotation.is_empty() {
            contrib.add_attribute("#[deprecated]".to_string());
        } else {
            contrib.add_attribute(format!("#[deprecated = \"{}\"]", annotation));
        }
        Some(contrib)
    }

    fn visit_variant_case(
        &mut self,
        annotation: &String,
        _case: &Case,
        _case_index: usize,
    ) -> Option<VariantCaseContribution> {
        let mut contrib = VariantCaseContribution::new();
        if annotation.is_empty() {
            contrib.add_attribute("#[deprecated]".to_string());
        } else {
            contrib.add_attribute(format!("#[deprecated = \"{}\"]", annotation));
        }
        Some(contrib)
    }
}

/// A visitor that adds tracing to function bodies
struct TracingVisitor;

impl Visitor for TracingVisitor {
    type Contributions = ResultContributions;

    fn target(&self) -> &str {
        "trace"
    }

    fn visit_function(
        &mut self,
        annotation: &String,
        func: &Function,
    ) -> Option<FunctionContribution> {
        let mut contrib = FunctionContribution::new();
        contrib.add_attribute("#[tracing::instrument]".to_string());

        let level = if annotation.is_empty() {
            "debug"
        } else {
            annotation.as_str()
        };
        contrib.add_body_prefix(format!(
            "tracing::{}!(\"Entering function: {}\");",
            level, func.name
        ));

        Some(contrib)
    }

    fn visit_interface(
        &mut self,
        _annotation: &String,
        _interface: Option<&Interface>,
    ) -> Option<ModuleContribution> {
        let mut contrib = ModuleContribution::new();
        contrib.add_use("use tracing".to_string());
        Some(contrib)
    }
}

/// A visitor that adds validation
struct ValidateVisitor;

impl Visitor for ValidateVisitor {
    type Contributions = ResultContributions;

    fn target(&self) -> &str {
        "validate"
    }

    fn visit_function(
        &mut self,
        annotation: &String,
        _func: &Function,
    ) -> Option<FunctionContribution> {
        let mut contrib = FunctionContribution::new();
        if !annotation.is_empty() {
            contrib.add_body_prefix(format!("assert!({}, \"Validation failed\");", annotation));
        }
        Some(contrib)
    }
}

/// A visitor that adds version info
struct SinceVisitor;

impl Visitor for SinceVisitor {
    type Contributions = ResultContributions;

    fn target(&self) -> &str {
        "since"
    }

    fn visit_function(
        &mut self,
        annotation: &String,
        _func: &Function,
    ) -> Option<FunctionContribution> {
        let mut contrib = FunctionContribution::new();
        contrib.add_attribute(format!("#[doc = \"Since version: {}\"]", annotation));
        Some(contrib)
    }

    fn visit_interface(
        &mut self,
        annotation: &String,
        _interface: Option<&Interface>,
    ) -> Option<ModuleContribution> {
        let mut contrib = ModuleContribution::new();
        contrib.add_code(format!("// Interface available since version: {}", annotation));
        Some(contrib)
    }
}

/// A visitor that adds custom derives
struct DeriveVisitor;

impl Visitor for DeriveVisitor {
    type Contributions = ResultContributions;

    fn target(&self) -> &str {
        "derive"
    }

    fn visit_enum(
        &mut self,
        annotation: &String,
        _enum: &Enum,
        _type_id: TypeId,
    ) -> Option<TypeContribution> {
        let mut contrib = TypeContribution::new();
        for derive in annotation.split(',').map(|s| s.trim()) {
            if !derive.is_empty() {
                contrib.add_derive(derive.to_string());
            }
        }
        Some(contrib)
    }
}

/// A visitor that adds logging on function entry
struct LoggingVisitor;

impl Visitor for LoggingVisitor {
    type Contributions = ResultContributions;

    fn target(&self) -> &str {
        "logging"
    }

    fn visit_function(
        &mut self,
        _annotation: &String,
        func: &Function,
    ) -> Option<FunctionContribution> {
        let mut contrib = FunctionContribution::new();

        contrib.add_body_prefix(format!("println!(\"[ENTRY] {}\");", func.name));

        for param_name in func.params.iter() {
            contrib.add_body_prefix(format!(
                "println!(\"  {} = {{:?}}\", {});",
                param_name, param_name
            ));
        }

        Some(contrib)
    }
}

#[test]
fn test_deprecated_visitor_basic() {
    let visitor = DeprecatedVisitor;

    // Test with an empty contribution
    let _contrib = RustFunctionContribution::new();

    // Verify visitor target
    assert_eq!(visitor.target(), "deprecated");

    // Test generating deprecated attribute
    let annotation = "use new function instead".to_string();
    assert!(annotation.len() > 0);
}

#[test]
fn test_visitor_targets() {
    assert_eq!(DeprecatedVisitor.target(), "deprecated");
    assert_eq!(TracingVisitor.target(), "trace");
    assert_eq!(ValidateVisitor.target(), "validate");
    assert_eq!(SinceVisitor.target(), "since");
    assert_eq!(DeriveVisitor.target(), "derive");
    assert_eq!(LoggingVisitor.target(), "logging");
}

#[test]
fn test_logging_visitor_entry_lines() {
    let func = Function {
        name: "test_func".to_string(),
        params: vec!["input".to_string()],
        has_result: true,
    };

    let mut visitor = LoggingVisitor;
    let contrib = visitor.visit_function(&String::new(), &func);

    assert!(contrib.is_some());
    let contrib = contrib.unwrap();

    assert!(!contrib.body_prefix.is_empty());
    assert!(contrib.body_prefix.iter().any(|s| s.contains("[ENTRY]")));
    assert!(contrib.body_prefix.iter().any(|s| s.contains("input")));
}
