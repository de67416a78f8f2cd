//! Builder-style contribution accumulators.
//!
//! These types collect attributes, derives, doc comments and code snippets
//! for one generated element. Every list preserves call order: entries are
//! appended one at a time, never reordered and never deduplicated, and a
//! contribution that has received an entry stays non-empty from then on.

use vstd::prelude::*;

verus! {

/// Contributions for type definitions (records, variants, enums, flags,
/// resources).
#[derive(Debug, Clone)]
pub struct TypeContribution {
    /// Raw attribute lines to add (with the full `#[...]` syntax)
    pub attributes: Vec<String>,
    /// Derive macros to add (just the trait name, no brackets)
    pub derives: Vec<String>,
    /// Doc comment lines to add (without the `///`)
    pub doc_comments: Vec<String>,
    /// Additional code to add after the type definition
    pub additional_code: Vec<String>,
}

impl TypeContribution {
    /// True when no entry has ever been added.
    pub open spec fn spec_is_empty(&self) -> bool {
        self.attributes@.len() == 0 && self.derives@.len() == 0 && self.doc_comments@.len() == 0
            && self.additional_code@.len() == 0
    }

    /// Create a new empty TypeContribution
    pub fn new() -> (r: Self)
        ensures
            r.spec_is_empty(),
            r.attributes@ == Seq::<String>::empty(),
            r.derives@ == Seq::<String>::empty(),
            r.doc_comments@ == Seq::<String>::empty(),
            r.additional_code@ == Seq::<String>::empty(),
    {
        TypeContribution {
            attributes: Vec::new(),
            derives: Vec::new(),
            doc_comments: Vec::new(),
            additional_code: Vec::new(),
        }
    }

    /// Add a raw attribute line (e.g. `#[non_exhaustive]`).
    pub fn add_attribute(&mut self, attr: String)
        ensures
            final(self).attributes@ == old(self).attributes@.push(attr),
            final(self).derives@ == old(self).derives@,
            final(self).doc_comments@ == old(self).doc_comments@,
            final(self).additional_code@ == old(self).additional_code@,
            !final(self).spec_is_empty(),
    {
        self.attributes.push(attr);
    }

    /// Add a derive macro (e.g. `Clone`), to be placed in `#[derive(...)]`.
    pub fn add_derive(&mut self, derive: String)
        ensures
            final(self).derives@ == old(self).derives@.push(derive),
            final(self).attributes@ == old(self).attributes@,
            final(self).doc_comments@ == old(self).doc_comments@,
            final(self).additional_code@ == old(self).additional_code@,
            !final(self).spec_is_empty(),
    {
        self.derives.push(derive);
    }

    /// Add a doc comment line; the `///` prefix is added by the emitter.
    pub fn add_doc_comment(&mut self, comment: String)
        ensures
            final(self).doc_comments@ == old(self).doc_comments@.push(comment),
            final(self).attributes@ == old(self).attributes@,
            final(self).derives@ == old(self).derives@,
            final(self).additional_code@ == old(self).additional_code@,
            !final(self).spec_is_empty(),
    {
        self.doc_comments.push(comment);
    }

    /// Add additional code to splice after the type definition.
    pub fn add_code(&mut self, code: String)
        ensures
            final(self).additional_code@ == old(self).additional_code@.push(code),
            final(self).attributes@ == old(self).attributes@,
            final(self).derives@ == old(self).derives@,
            final(self).doc_comments@ == old(self).doc_comments@,
            !final(self).spec_is_empty(),
    {
        self.additional_code.push(code);
    }

    /// Get all attributes
    pub fn attributes(&self) -> (r: &[String])
        ensures
            r@ == self.attributes@,
    {
        self.attributes.as_slice()
    }

    /// Get all derives
    pub fn derives(&self) -> (r: &[String])
        ensures
            r@ == self.derives@,
    {
        self.derives.as_slice()
    }

    /// Get all doc comments
    pub fn doc_comments(&self) -> (r: &[String])
        ensures
            r@ == self.doc_comments@,
    {
        self.doc_comments.as_slice()
    }

    /// Get all additional code
    pub fn additional_code(&self) -> (r: &[String])
        ensures
            r@ == self.additional_code@,
    {
        self.additional_code.as_slice()
    }

    /// Check if this contribution has any modifications
    pub fn is_empty(&self) -> (r: bool)
        ensures
            r == self.spec_is_empty(),
    {
        self.attributes.is_empty() && self.derives.is_empty() && self.doc_comments.is_empty()
            && self.additional_code.is_empty()
    }
}

/// One contribution state extends another when every list of the second
/// is a prefix of the corresponding list of the first. Every state reached
/// from `c` by `add_*` calls extends `c`, since each call only pushes.
pub open spec fn type_contribution_extends(c: TypeContribution, d: TypeContribution) -> bool {
    c.attributes@.is_prefix_of(d.attributes@) && c.derives@.is_prefix_of(d.derives@)
        && c.doc_comments@.is_prefix_of(d.doc_comments@) && c.additional_code@.is_prefix_of(
        d.additional_code@,
    )
}

/// Emptiness is monotone: a contribution that is non-empty stays non-empty
/// under any further additions, since additions only extend the lists.
pub proof fn lemma_nonempty_is_permanent(c: TypeContribution, d: TypeContribution)
    requires
        !c.spec_is_empty(),
        type_contribution_extends(c, d),
    ensures
        !d.spec_is_empty(),
{
}

/// Appending two entries appends exactly those two entries, in call order:
/// nothing before them moves, and they land at the end in the order given.
pub proof fn lemma_push_order_preserved(s: Seq<String>, a: String, b: String)
    ensures
        s.push(a).push(b).len() == s.len() + 2,
        s.push(a).push(b)[s.len() as int] == a,
        s.push(a).push(b)[s.len() as int + 1] == b,
        forall|i: int| 0 <= i < s.len() ==> s.push(a).push(b)[i] == s[i],
{
}

/// Contributions for field definitions within records.
#[derive(Debug, Clone)]
pub struct FieldContribution {
    /// Field-level attributes (e.g. `#[serde(skip)]`)
    pub attributes: Vec<String>,
    /// Doc comment lines for the field
    pub doc_comments: Vec<String>,
}

impl FieldContribution {
    /// True when no entry has ever been added.
    pub open spec fn spec_is_empty(&self) -> bool {
        self.attributes@.len() == 0 && self.doc_comments@.len() == 0
    }

    /// Create a new empty FieldContribution
    pub fn new() -> (r: Self)
        ensures
            r.spec_is_empty(),
            r.attributes@ == Seq::<String>::empty(),
            r.doc_comments@ == Seq::<String>::empty(),
    {
        FieldContribution { attributes: Vec::new(), doc_comments: Vec::new() }
    }

    /// Add a field-level attribute.
    pub fn add_attribute(&mut self, attr: String)
        ensures
            final(self).attributes@ == old(self).attributes@.push(attr),
            final(self).doc_comments@ == old(self).doc_comments@,
            !final(self).spec_is_empty(),
    {
        self.attributes.push(attr);
    }

    /// Add a doc comment for the field.
    pub fn add_doc_comment(&mut self, comment: String)
        ensures
            final(self).doc_comments@ == old(self).doc_comments@.push(comment),
            final(self).attributes@ == old(self).attributes@,
            !final(self).spec_is_empty(),
    {
        self.doc_comments.push(comment);
    }

    /// Get all attributes
    pub fn attributes(&self) -> (r: &[String])
        ensures
            r@ == self.attributes@,
    {
        self.attributes.as_slice()
    }

    /// Get all doc comments
    pub fn doc_comments(&self) -> (r: &[String])
        ensures
            r@ == self.doc_comments@,
    {
        self.doc_comments.as_slice()
    }

    /// Check if this contribution has any modifications
    pub fn is_empty(&self) -> (r: bool)
        ensures
            r == self.spec_is_empty(),
    {
        self.attributes.is_empty() && self.doc_comments.is_empty()
    }
}

/// Contributions for variant cases (enum variants).
#[derive(Debug, Clone)]
pub struct VariantCaseContribution {
    /// Variant-level attributes (e.g. `#[serde(rename = "foo")]`)
    pub attributes: Vec<String>,
    /// Doc comment lines for the variant
    pub doc_comments: Vec<String>,
}

impl VariantCaseContribution {
    /// True when no entry has ever been added.
    pub open spec fn spec_is_empty(&self) -> bool {
        self.attributes@.len() == 0 && self.doc_comments@.len() == 0
    }

    /// Create a new empty VariantCaseContribution
    pub fn new() -> (r: Self)
        ensures
            r.spec_is_empty(),
            r.attributes@ == Seq::<String>::empty(),
            r.doc_comments@ == Seq::<String>::empty(),
    {
        VariantCaseContribution { attributes: Vec::new(), doc_comments: Vec::new() }
    }

    /// Add a variant-level attribute.
    pub fn add_attribute(&mut self, attr: String)
        ensures
            final(self).attributes@ == old(self).attributes@.push(attr),
            final(self).doc_comments@ == old(self).doc_comments@,
            !final(self).spec_is_empty(),
    {
        self.attributes.push(attr);
    }

    /// Add a doc comment for the variant.
    pub fn add_doc_comment(&mut self, comment: String)
        ensures
            final(self).doc_comments@ == old(self).doc_comments@.push(comment),
            final(self).attributes@ == old(self).attributes@,
            !final(self).spec_is_empty(),
    {
        self.doc_comments.push(comment);
    }

    /// Get all attributes
    pub fn attributes(&self) -> (r: &[String])
        ensures
            r@ == self.attributes@,
    {
        self.attributes.as_slice()
    }

    /// Get all doc comments
    pub fn doc_comments(&self) -> (r: &[String])
        ensures
            r@ == self.doc_comments@,
    {
        self.doc_comments.as_slice()
    }

    /// Check if this contribution has any modifications
    pub fn is_empty(&self) -> (r: bool)
        ensures
            r == self.spec_is_empty(),
    {
        self.attributes.is_empty() && self.doc_comments.is_empty()
    }
}

/// Contributions for function definitions.
#[derive(Debug, Clone)]
pub struct FunctionContribution {
    /// Function-level attributes (e.g. `#[inline]`)
    pub attributes: Vec<String>,
    /// Doc comment lines for the function
    pub doc_comments: Vec<String>,
    /// Code to prepend to the function body (runs before generated code)
    pub body_prefix: Vec<String>,
    /// Code to append to the function body (runs after generated code)
    pub body_suffix: Vec<String>,
}

impl FunctionContribution {
    /// True when no entry has ever been added.
    pub open spec fn spec_is_empty(&self) -> bool {
        self.attributes@.len() == 0 && self.doc_comments@.len() == 0 && self.body_prefix@.len()
            == 0 && self.body_suffix@.len() == 0
    }

    /// Create a new empty FunctionContribution
    pub fn new() -> (r: Self)
        ensures
            r.spec_is_empty(),
            r.attributes@ == Seq::<String>::empty(),
            r.doc_comments@ == Seq::<String>::empty(),
            r.body_prefix@ == Seq::<String>::empty(),
            r.body_suffix@ == Seq::<String>::empty(),
    {
        FunctionContribution {
            attributes: Vec::new(),
            doc_comments: Vec::new(),
            body_prefix: Vec::new(),
            body_suffix: Vec::new(),
        }
    }

    /// Add a function-level attribute.
    pub fn add_attribute(&mut self, attr: String)
        ensures
            final(self).attributes@ == old(self).attributes@.push(attr),
            final(self).doc_comments@ == old(self).doc_comments@,
            final(self).body_prefix@ == old(self).body_prefix@,
            final(self).body_suffix@ == old(self).body_suffix@,
            !final(self).spec_is_empty(),
    {
        self.attributes.push(attr);
    }

    /// Add a doc comment for the function.
    pub fn add_doc_comment(&mut self, comment: String)
        ensures
            final(self).doc_comments@ == old(self).doc_comments@.push(comment),
            final(self).attributes@ == old(self).attributes@,
            final(self).body_prefix@ == old(self).body_prefix@,
            final(self).body_suffix@ == old(self).body_suffix@,
            !final(self).spec_is_empty(),
    {
        self.doc_comments.push(comment);
    }

    /// Prepend code to the function body (runs before generated code).
    pub fn prepend_body(&mut self, code: String)
        ensures
            final(self).body_prefix@ == old(self).body_prefix@.push(code),
            final(self).attributes@ == old(self).attributes@,
            final(self).doc_comments@ == old(self).doc_comments@,
            final(self).body_suffix@ == old(self).body_suffix@,
            !final(self).spec_is_empty(),
    {
        self.body_prefix.push(code);
    }

    /// Append code to the function body (runs after generated code,
    /// before the return).
    pub fn append_body(&mut self, code: String)
        ensures
            final(self).body_suffix@ == old(self).body_suffix@.push(code),
            final(self).attributes@ == old(self).attributes@,
            final(self).doc_comments@ == old(self).doc_comments@,
            final(self).body_prefix@ == old(self).body_prefix@,
            !final(self).spec_is_empty(),
    {
        self.body_suffix.push(code);
    }

    /// Get all attributes
    pub fn attributes(&self) -> (r: &[String])
        ensures
            r@ == self.attributes@,
    {
        self.attributes.as_slice()
    }

    /// Get all doc comments
    pub fn doc_comments(&self) -> (r: &[String])
        ensures
            r@ == self.doc_comments@,
    {
        self.doc_comments.as_slice()
    }

    /// Get all body prefix code
    pub fn body_prefix(&self) -> (r: &[String])
        ensures
            r@ == self.body_prefix@,
    {
        self.body_prefix.as_slice()
    }

    /// Get all body suffix code
    pub fn body_suffix(&self) -> (r: &[String])
        ensures
            r@ == self.body_suffix@,
    {
        self.body_suffix.as_slice()
    }

    /// Check if this contribution has any modifications
    pub fn is_empty(&self) -> (r: bool)
        ensures
            r == self.spec_is_empty(),
    {
        self.attributes.is_empty() && self.doc_comments.is_empty() && self.body_prefix.is_empty()
            && self.body_suffix.is_empty()
    }
}

/// Contributions for module-level code.
#[derive(Debug, Clone)]
pub struct ModuleContribution {
    /// Additional code to add to the module
    pub additional_code: Vec<String>,
    /// Use statements to add near the top of the module
    pub use_statements: Vec<String>,
}

impl ModuleContribution {
    /// True when no entry has ever been added.
    pub open spec fn spec_is_empty(&self) -> bool {
        self.additional_code@.len() == 0 && self.use_statements@.len() == 0
    }

    /// Create a new empty ModuleContribution
    pub fn new() -> (r: Self)
        ensures
            r.spec_is_empty(),
            r.additional_code@ == Seq::<String>::empty(),
            r.use_statements@ == Seq::<String>::empty(),
    {
        ModuleContribution { additional_code: Vec::new(), use_statements: Vec::new() }
    }

    /// Add additional code at the module level.
    pub fn add_code(&mut self, code: String)
        ensures
            final(self).additional_code@ == old(self).additional_code@.push(code),
            final(self).use_statements@ == old(self).use_statements@,
            !final(self).spec_is_empty(),
    {
        self.additional_code.push(code);
    }

    /// Add a use statement near the top of the module.
    pub fn add_use(&mut self, use_stmt: String)
        ensures
            final(self).use_statements@ == old(self).use_statements@.push(use_stmt),
            final(self).additional_code@ == old(self).additional_code@,
            !final(self).spec_is_empty(),
    {
        self.use_statements.push(use_stmt);
    }

    /// Get all additional code
    pub fn additional_code(&self) -> (r: &[String])
        ensures
            r@ == self.additional_code@,
    {
        self.additional_code.as_slice()
    }

    /// Get all use statements
    pub fn use_statements(&self) -> (r: &[String])
        ensures
            r@ == self.use_statements@,
    {
        self.use_statements.as_slice()
    }

    /// Check if this contribution has any modifications
    pub fn is_empty(&self) -> (r: bool)
        ensures
            r == self.spec_is_empty(),
    {
        self.additional_code.is_empty() && self.use_statements.is_empty()
    }
}

} // verus!
