//! The shape of the protocol's meta model, as the generator reads it.

use vstd::prelude::*;

verus! {

/// The whole meta model.
#[derive(Debug)]
pub struct Spec {
    pub meta_data: Metadata,
    pub requests: Vec<Request>,
    pub notifications: Vec<Notification>,
    pub structures: Vec<Structure>,
    pub enumerations: Vec<Enumeration>,
    pub type_aliases: Vec<TypeAlias>,
}

/// The meta model's version.
#[derive(Debug)]
pub struct Metadata {
    pub version: String,
}

/// A request the protocol defines.
#[derive(Debug)]
pub struct Request {
    pub method: String,
    pub result: Type,
    pub message_direction: MessageDirection,
    pub params: Option<Type>,
    pub partial_result: Option<Type>,
    pub documentation: String,
    pub since: Option<String>,
}

/// A notification the protocol defines.
#[derive(Debug)]
pub struct Notification {
    pub method: String,
    pub message_direction: MessageDirection,
    pub params: Option<Type>,
    pub documentation: String,
    pub since: Option<String>,
}

/// A structure type of the protocol.
#[derive(Debug)]
pub struct Structure {
    pub name: String,
    pub properties: Vec<Property>,
    pub extends: Vec<Type>,
    pub mixins: Vec<Type>,
    pub documentation: String,
    pub since: Option<String>,
}

/// An enumeration type of the protocol.
#[derive(Debug)]
pub struct Enumeration {
    pub name: String,
    pub ty: Type,
    pub values: Vec<EnumValue>,
    pub supports_custom_values: bool,
    pub documentation: String,
    pub since: Option<String>,
}

/// One value of an enumeration.
#[derive(Debug)]
pub struct EnumValue {
    pub name: String,
    pub value: NumberOrString,
    pub documentation: String,
    pub since: Option<String>,
}

/// An enumeration value: a number or a string.
#[derive(Debug)]
pub enum NumberOrString {
    Number(i64),
    String(String),
}

/// A named alias of a type.
#[derive(Debug)]
pub struct TypeAlias {
    pub name: String,
    pub ty: Type,
    pub documentation: String,
    pub since: Option<String>,
}

/// Which side sends a message.
#[derive(Debug, Clone, Copy, PartialEq, Eq, Structural)]
pub enum MessageDirection {
    ClientToServer,
    ServerToClient,
    Both,
}

/// A property of a structure or of a literal type.
#[derive(Debug, PartialEq, Eq)]
pub struct Property {
    pub name: String,
    pub optional: bool,
    pub documentation: String,
    pub ty: Type,
}

/// A type expression of the meta model.
#[allow(inconsistent_fields)]
#[derive(Debug, PartialEq, Eq)]
pub enum Type {
    Base { name: BaseType },
    Reference { name: String },
    Or { items: Vec<Type> },
    Literal { value: Literal },
    StringLiteral { value: String },
    /// A map from `key` to `value` (the meta model calls this kind `map`).
    MapType { key: Box<Type>, value: Box<Type> },
    Array { element: Box<Type> },
    Tuple { items: Vec<Type> },
}

/// An inline structure type.
#[derive(Debug, PartialEq, Eq)]
pub struct Literal {
    pub properties: Vec<Property>,
}

/// The base types of the meta model.
#[derive(Debug, Clone, Copy, PartialEq, Eq, Structural)]
pub enum BaseType {
    Null,
    String,
    Uinteger,
    Integer,
    Boolean,
    Decimal,
    DocumentUri,
    Uri,
}

impl Type {
    /// The type stands for no value: the base type `null`, or a literal
    /// structure without properties.
    pub open spec fn spec_is_null(&self) -> bool {
        ||| self matches Type::Base { name: BaseType::Null }
        ||| (self matches Type::Literal { value } && value.properties@.len() == 0)
    }

    /// Whether the type stands for no value.
    pub fn is_null(&self) -> (r: bool)
        ensures
            r == self.spec_is_null(),
    {
        match self {
            Type::Base { name: BaseType::Null } => true,
            Type::Literal { value } => value.properties.len() == 0,
            _ => false,
        }
    }
}

/// Which types stand for no value: the base type `null` and no other base
/// type, a literal structure exactly when it has no properties (whatever
/// they are), and no other kind of type.
pub proof fn lemma_is_null_cases(t: Type)
    ensures
        t matches Type::Base { name } ==> (t.spec_is_null() == (name == BaseType::Null)),
        t matches Type::Literal { value } ==> (t.spec_is_null() == (value.properties@.len() == 0)),
        !(t is Base || t is Literal) ==> !t.spec_is_null(),
{
}

/// A copy of a type expression.
fn clone_type(t: &Type) -> Type
    decreases t,
{
    match t {
        Type::Base { name } => Type::Base { name: *name },
        Type::Reference { name } => Type::Reference { name: name.clone() },
        Type::Or { items } => Type::Or { items: clone_types(items) },
        Type::Literal { value } => Type::Literal { value: clone_literal(value) },
        Type::StringLiteral { value } => Type::StringLiteral { value: value.clone() },
        Type::MapType { key, value } => Type::MapType {
            key: Box::new(clone_type(key)),
            value: Box::new(clone_type(value)),
        },
        Type::Array { element } => Type::Array { element: Box::new(clone_type(element)) },
        Type::Tuple { items } => Type::Tuple { items: clone_types(items) },
    }
}

/// A copy of a list of type expressions.
fn clone_types(items: &Vec<Type>) -> Vec<Type>
    decreases items,
{
    let mut r: Vec<Type> = Vec::new();
    let mut i: usize = 0;
    while i < items.len()
        invariant
            i <= items@.len(),
        decreases items@.len() - i,
    {
        assert(decreases_to!(items => items@[i as int]));
        r.push(clone_type(&items[i]));
        i = i + 1;
    }
    r
}

/// A copy of a property.
fn clone_property(p: &Property) -> Property
    decreases p,
{
    Property {
        name: p.name.clone(),
        optional: p.optional,
        documentation: p.documentation.clone(),
        ty: clone_type(&p.ty),
    }
}

/// A copy of a literal structure type.
fn clone_literal(l: &Literal) -> Literal
    decreases l,
{
    let mut r: Vec<Property> = Vec::new();
    let mut i: usize = 0;
    while i < l.properties.len()
        invariant
            i <= l.properties@.len(),
        decreases l.properties@.len() - i,
    {
        assert(decreases_to!(l => l.properties@[i as int]));
        r.push(clone_property(&l.properties[i]));
        i = i + 1;
    }
    Literal { properties: r }
}

impl Clone for Type {
    /// A copy, field by field.
    fn clone(&self) -> Self {
        clone_type(self)
    }
}

impl Clone for Property {
    /// A copy, field by field.
    fn clone(&self) -> Self {
        clone_property(self)
    }
}

impl Clone for Literal {
    /// A copy, field by field.
    fn clone(&self) -> Self {
        clone_literal(self)
    }
}

} // verus!
