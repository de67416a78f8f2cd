//! The schema-node model.
//!
//! The parsed interface-description schema is produced outside this
//! crate. These types hold, as plain values, exactly what the dispatch
//! engine and the visitor hooks read of each node: names, member lists,
//! indexes and stable type identifiers. A caller builds them from its
//! own schema representation before driving a traversal.

use vstd::prelude::*;

verus! {

/// A stable identifier carried by each type definition in the schema.
#[derive(Debug, Clone, Copy, PartialEq, Eq, Structural)]
pub struct TypeId {
    /// Position of the type definition in the schema's type arena.
    pub index: usize,
}

/// A named field of a record.
#[derive(Debug, Clone)]
pub struct Field {
    /// The field's name
    pub name: String,
}

/// A record type definition.
#[derive(Debug, Clone)]
pub struct Record {
    /// The record's fields, in declaration order
    pub fields: Vec<Field>,
}

/// A named case of a variant.
#[derive(Debug, Clone)]
pub struct Case {
    /// The case's name
    pub name: String,
}

/// A variant type definition.
#[derive(Debug, Clone)]
pub struct Variant {
    /// The variant's cases, in declaration order
    pub cases: Vec<Case>,
}

/// A named case of an enum.
#[derive(Debug, Clone)]
pub struct EnumCase {
    /// The case's name
    pub name: String,
}

/// An enum type definition.
#[derive(Debug, Clone)]
pub struct Enum {
    /// The enum's cases, in declaration order
    pub cases: Vec<EnumCase>,
}

/// A named flag of a flags type.
#[derive(Debug, Clone)]
pub struct Flag {
    /// The flag's name
    pub name: String,
}

/// A flags type definition.
#[derive(Debug, Clone)]
pub struct Flags {
    /// The flags, in declaration order
    pub flags: Vec<Flag>,
}

/// A function definition.
#[derive(Debug, Clone)]
pub struct Function {
    /// The function's name
    pub name: String,
    /// The parameter names, in declaration order
    pub params: Vec<String>,
    /// Whether the function declares a result type
    pub has_result: bool,
}

/// An interface definition.
#[derive(Debug, Clone)]
pub struct Interface {
    /// The interface's name, where it has one
    pub name: Option<String>,
}

/// A world definition.
#[derive(Debug, Clone)]
pub struct World {
    /// The world's name
    pub name: String,
}

/// One element of the schema, as the dispatch engine sees it: the node's
/// kind decides which visitor hook runs for it.
#[derive(Debug, Clone)]
pub enum SchemaNode {
    /// A record type definition and its type identifier
    Record(Record, TypeId),
    /// A variant type definition and its type identifier
    Variant(Variant, TypeId),
    /// An enum type definition and its type identifier
    Enum(Enum, TypeId),
    /// A flags type definition and its type identifier
    Flags(Flags, TypeId),
    /// A resource type, carrying only its type identifier
    Resource(TypeId),
    /// A record field and its index within the record
    Field(Field, usize),
    /// A variant case and its index within the variant
    Case(Case, usize),
    /// A function definition
    Function(Function),
    /// An interface definition, where the schema names one
    Interface(Option<Interface>),
    /// A world definition
    World(World),
}

} // verus!
