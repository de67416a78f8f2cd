//! The visitor interface.
//!
//! A visitor is the single extension point of the engine: a plugin that
//! answers to one annotation target and is invoked once per schema node,
//! per matching target, during a single traversal. Every hook defaults to
//! returning nothing, so a plugin overrides only the node kinds it cares
//! about; the returned contribution is its only channel of influence on
//! the generated output.

use vstd::prelude::*;

verus! {

use crate::schema::{Case, Enum, Field, Flags, Function, Interface, Record, TypeId, Variant,
    World};

/// Groups one backend's five contribution types into a single bindable
/// family, so the generic visitor interface is written once and reused
/// per backend.
pub trait ContributionTypes {
    /// Contribution type for type definitions (records, variants, enums,
    /// flags, resources)
    type Type;

    /// Contribution type for fields within records
    type Field;

    /// Contribution type for variant cases
    type VariantCase;

    /// Contribution type for functions
    type Function;

    /// Contribution type for modules (interfaces and worlds)
    type Module;
}

/// The per-plugin capability set: one hook per schema-node kind, each
/// optionally returning a contribution of the matching kind.
///
/// All hooks have default implementations that return `None`. A hook that
/// cannot interpret a malformed payload should likewise return `None`
/// rather than abort generation: an annotation is an opt-in decoration,
/// and failure stays local to the one hook.
pub trait Visitor {
    /// The family of contribution types this visitor produces.
    type Contributions: ContributionTypes;

    /// The annotation target this visitor answers to: the string key that
    /// names it in each annotation intended for it.
    fn target(&self) -> &str;

    /// Hook for record type definitions.
    fn visit_record(
        &mut self,
        _annotation: &String,
        _record: &Record,
        _type_id: TypeId,
    ) -> Option<<Self::Contributions as ContributionTypes>::Type> {
        None
    }

    /// Hook for variant type definitions.
    fn visit_variant(
        &mut self,
        _annotation: &String,
        _variant: &Variant,
        _type_id: TypeId,
    ) -> Option<<Self::Contributions as ContributionTypes>::Type> {
        None
    }

    /// Hook for enum type definitions.
    fn visit_enum(
        &mut self,
        _annotation: &String,
        _enum_: &Enum,
        _type_id: TypeId,
    ) -> Option<<Self::Contributions as ContributionTypes>::Type> {
        None
    }

    /// Hook for flags type definitions.
    fn visit_flags(
        &mut self,
        _annotation: &String,
        _flags: &Flags,
        _type_id: TypeId,
    ) -> Option<<Self::Contributions as ContributionTypes>::Type> {
        None
    }

    /// Hook for resource type definitions.
    fn visit_resource(
        &mut self,
        _annotation: &String,
        _resource_id: TypeId,
    ) -> Option<<Self::Contributions as ContributionTypes>::Type> {
        None
    }

    /// Hook for record fields.
    fn visit_field(
        &mut self,
        _annotation: &String,
        _field: &Field,
        _field_index: usize,
    ) -> Option<<Self::Contributions as ContributionTypes>::Field> {
        None
    }

    /// Hook for variant cases.
    fn visit_variant_case(
        &mut self,
        _annotation: &String,
        _case: &Case,
        _case_index: usize,
    ) -> Option<<Self::Contributions as ContributionTypes>::VariantCase> {
        None
    }

    /// Hook for function definitions.
    fn visit_function(
        &mut self,
        _annotation: &String,
        _func: &Function,
    ) -> Option<<Self::Contributions as ContributionTypes>::Function> {
        None
    }

    /// Hook for interface definitions.
    fn visit_interface(
        &mut self,
        _annotation: &String,
        _interface: Option<&Interface>,
    ) -> Option<<Self::Contributions as ContributionTypes>::Module> {
        None
    }

    /// Hook for world definitions.
    fn visit_world(
        &mut self,
        _annotation: &String,
        _world: &World,
    ) -> Option<<Self::Contributions as ContributionTypes>::Module> {
        None
    }
}

/// Marker for plugins that process schema annotations during binding
/// generation; concrete per-node methods are bound through `Visitor`.
pub trait WitVisitor: Send {

}

} // verus!
