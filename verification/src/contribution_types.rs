//! Contribution accumulators for the Rust backend.
//!
//! These are the concrete output types a Rust-backend visitor hands back
//! from its hooks. Each is an ordered list builder: entries are appended
//! one at a time and are never reordered or deduplicated.

use vstd::prelude::*;

verus! {

use crate::visitor::ContributionTypes;

/// The family of contribution types for the Rust backend, bound as one
/// unit for use with the visitor interface.
pub struct RustContributions;

impl ContributionTypes for RustContributions {
    type Type = RustTypeContribution;

    type Field = RustFieldContribution;

    type VariantCase = RustVariantCaseContribution;

    type Function = RustFunctionContribution;

    type Module = RustModuleContribution;
}

/// Contributions for type definitions (records, variants, enums, flags,
/// resources).
#[derive(Debug, Clone)]
pub struct RustTypeContribution {
    /// Derive macros to add
    pub derives: Vec<String>,
    /// Attributes to add
    pub attributes: Vec<String>,
}

impl RustTypeContribution {
    /// True when no entry has ever been added.
    pub open spec fn spec_is_empty(&self) -> bool {
        self.derives@.len() == 0 && self.attributes@.len() == 0
    }

    pub fn new() -> (r: Self)
        ensures
            r.spec_is_empty(),
    {
        RustTypeContribution { derives: Vec::new(), attributes: Vec::new() }
    }

    /// Add a derive macro
    pub fn add_derive(&mut self, derive: String)
        ensures
            final(self).derives@ == old(self).derives@.push(derive),
            final(self).attributes@ == old(self).attributes@,
            !final(self).spec_is_empty(),
    {
        self.derives.push(derive);
    }

    /// Add an attribute
    pub fn add_attribute(&mut self, attr: String)
        ensures
            final(self).attributes@ == old(self).attributes@.push(attr),
            final(self).derives@ == old(self).derives@,
            !final(self).spec_is_empty(),
    {
        self.attributes.push(attr);
    }

    /// Check if empty
    pub fn is_empty(&self) -> (r: bool)
        ensures
            r == self.spec_is_empty(),
    {
        self.derives.is_empty() && self.attributes.is_empty()
    }
}

/// Contributions for field definitions within records
#[derive(Debug, Clone)]
pub struct RustFieldContribution {
    /// Field-level attributes
    pub attributes: Vec<String>,
}

impl RustFieldContribution {
    /// True when no entry has ever been added.
    pub open spec fn spec_is_empty(&self) -> bool {
        self.attributes@.len() == 0
    }

    pub fn new() -> (r: Self)
        ensures
            r.spec_is_empty(),
    {
        RustFieldContribution { attributes: Vec::new() }
    }

    /// Add an attribute
    pub fn add_attribute(&mut self, attr: String)
        ensures
            final(self).attributes@ == old(self).attributes@.push(attr),
            !final(self).spec_is_empty(),
    {
        self.attributes.push(attr);
    }

    /// Check if empty
    pub fn is_empty(&self) -> (r: bool)
        ensures
            r == self.spec_is_empty(),
    {
        self.attributes.is_empty()
    }
}

/// Contributions for variant/enum cases
#[derive(Debug, Clone)]
pub struct RustVariantCaseContribution {
    /// Case-level attributes
    pub attributes: Vec<String>,
}

impl RustVariantCaseContribution {
    /// True when no entry has ever been added.
    pub open spec fn spec_is_empty(&self) -> bool {
        self.attributes@.len() == 0
    }

    pub fn new() -> (r: Self)
        ensures
            r.spec_is_empty(),
    {
        RustVariantCaseContribution { attributes: Vec::new() }
    }

    /// Add an attribute
    pub fn add_attribute(&mut self, attr: String)
        ensures
            final(self).attributes@ == old(self).attributes@.push(attr),
            !final(self).spec_is_empty(),
    {
        self.attributes.push(attr);
    }

    /// Check if empty
    pub fn is_empty(&self) -> (r: bool)
        ensures
            r == self.spec_is_empty(),
    {
        self.attributes.is_empty()
    }
}

/// Contributions for function definitions
#[derive(Debug, Clone)]
pub struct RustFunctionContribution {
    /// Function-level attributes
    pub attributes: Vec<String>,
    /// Code to prepend to function body
    pub body_prefix: Vec<String>,
}

impl RustFunctionContribution {
    /// True when no entry has ever been added.
    pub open spec fn spec_is_empty(&self) -> bool {
        self.attributes@.len() == 0 && self.body_prefix@.len() == 0
    }

    pub fn new() -> (r: Self)
        ensures
            r.spec_is_empty(),
    {
        RustFunctionContribution { attributes: Vec::new(), body_prefix: Vec::new() }
    }

    /// Add an attribute
    pub fn add_attribute(&mut self, attr: String)
        ensures
            final(self).attributes@ == old(self).attributes@.push(attr),
            final(self).body_prefix@ == old(self).body_prefix@,
            !final(self).spec_is_empty(),
    {
        self.attributes.push(attr);
    }

    /// Add code to prepend to function body
    pub fn add_body_prefix(&mut self, code: String)
        ensures
            final(self).body_prefix@ == old(self).body_prefix@.push(code),
            final(self).attributes@ == old(self).attributes@,
            !final(self).spec_is_empty(),
    {
        self.body_prefix.push(code);
    }

    /// Check if empty
    pub fn is_empty(&self) -> (r: bool)
        ensures
            r == self.spec_is_empty(),
    {
        self.attributes.is_empty() && self.body_prefix.is_empty()
    }
}

/// Contributions for module-level code
#[derive(Debug, Clone)]
pub struct RustModuleContribution {
    /// Use statements to add
    pub use_statements: Vec<String>,
    /// Additional code to add to module
    pub additional_code: Vec<String>,
}

impl RustModuleContribution {
    /// True when no entry has ever been added.
    pub open spec fn spec_is_empty(&self) -> bool {
        self.use_statements@.len() == 0 && self.additional_code@.len() == 0
    }

    pub fn new() -> (r: Self)
        ensures
            r.spec_is_empty(),
    {
        RustModuleContribution { use_statements: Vec::new(), additional_code: Vec::new() }
    }

    /// Add a use statement
    pub fn add_use(&mut self, use_stmt: String)
        ensures
            final(self).use_statements@ == old(self).use_statements@.push(use_stmt),
            final(self).additional_code@ == old(self).additional_code@,
            !final(self).spec_is_empty(),
    {
        self.use_statements.push(use_stmt);
    }

    /// Add code to module
    pub fn add_code(&mut self, code: String)
        ensures
            final(self).additional_code@ == old(self).additional_code@.push(code),
            final(self).use_statements@ == old(self).use_statements@,
            !final(self).spec_is_empty(),
    {
        self.additional_code.push(code);
    }

    /// Check if empty
    pub fn is_empty(&self) -> (r: bool)
        ensures
            r == self.spec_is_empty(),
    {
        self.use_statements.is_empty() && self.additional_code.is_empty()
    }
}

} // verus!
