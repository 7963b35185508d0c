//! The schema model the generation pipeline consumes: named object/input
//! types with fields, enums with variants, and operations grouped by kind,
//! together with the default mapping from schema type references to generated
//! type text.
use crate::strutil::str_eq;
use vstd::prelude::*;
use vstd::string::StringExecFns;

verus! {

/// The kind of an operation.
#[derive(Clone, Copy, PartialEq, Eq, Structural, Debug)]
pub enum OpKind {
    /// A query operation.
    Query,
    /// A mutation operation.
    Mutation,
    /// A subscription operation.
    Subscription,
}

/// The name under which an operation kind stands in an override directive.
pub open spec fn spec_op_kind_name(k: OpKind) -> Seq<char> {
    match k {
        OpKind::Query => "Query"@,
        OpKind::Mutation => "Mutation"@,
        OpKind::Subscription => "Subscription"@,
    }
}

/// Returns the name under which an operation kind stands in an override
/// directive.
pub fn op_kind_name(k: OpKind) -> (r: &'static str)
    ensures
        r@ == spec_op_kind_name(k),
{
    match k {
        OpKind::Query => "Query",
        OpKind::Mutation => "Mutation",
        OpKind::Subscription => "Subscription",
    }
}

/// A schema type reference: a named type, a non-null wrapper or a list.
pub enum GqlType {
    /// A named type, nullable by default.
    Named(String),
    /// The non-null wrapper `T!`.
    NonNull(Box<GqlType>),
    /// A list `[T]`, nullable by default.
    ListOf(Box<GqlType>),
}

/// The generated type text of a named scalar: `Int`, `Float`, `Boolean` and
/// `AWSURL` change their spelling, every other name (the remaining scalars and
/// all user-defined type names) stands unchanged.
pub open spec fn spec_scalar_rust_name(n: Seq<char>) -> Seq<char> {
    if n == "Int"@ {
        "i32"@
    } else if n == "Float"@ {
        "f64"@
    } else if n == "Boolean"@ {
        "bool"@
    } else if n == "AWSURL"@ {
        "AWSUrl"@
    } else {
        n
    }
}

/// The generated type text of a type reference: a non-null reference maps to
/// the bare type, a nullable one is wrapped in `Option`, a list becomes `Vec`
/// of its element mapping.
pub open spec fn spec_rust_type(t: GqlType, nullable: bool) -> Seq<char>
    decreases t,
{
    match t {
        GqlType::NonNull(inner) => spec_rust_type(*inner, false),
        GqlType::Named(n) => if nullable {
            "Option<"@ + spec_scalar_rust_name(n@) + ">"@
        } else {
            spec_scalar_rust_name(n@)
        },
        GqlType::ListOf(inner) => if nullable {
            "Option<"@ + ("Vec<"@ + spec_rust_type(*inner, true) + ">"@) + ">"@
        } else {
            "Vec<"@ + spec_rust_type(*inner, true) + ">"@
        },
    }
}

/// Returns the generated type text of a named scalar.
pub fn scalar_rust_name(n: &str) -> (r: String)
    ensures
        r@ == spec_scalar_rust_name(n@),
{
    if str_eq(n, "Int") {
        "i32".to_owned()
    } else if str_eq(n, "Float") {
        "f64".to_owned()
    } else if str_eq(n, "Boolean") {
        "bool".to_owned()
    } else if str_eq(n, "AWSURL") {
        "AWSUrl".to_owned()
    } else {
        n.to_owned()
    }
}

/// Returns the generated type text of a type reference, with the given
/// nullability at this level.
pub fn rust_type_with(t: &GqlType, nullable: bool) -> (r: String)
    ensures
        r@ == spec_rust_type(*t, nullable),
    decreases *t,
{
    match t {
        GqlType::NonNull(inner) => rust_type_with(inner, false),
        GqlType::Named(n) => {
            let base = scalar_rust_name(n.as_str());
            if nullable {
                "Option<".to_owned().concat(base.as_str()).concat(">")
            } else {
                base
            }
        },
        GqlType::ListOf(inner) => {
            let elem = rust_type_with(inner, true);
            let v = "Vec<".to_owned().concat(elem.as_str()).concat(">");
            if nullable {
                "Option<".to_owned().concat(v.as_str()).concat(">")
            } else {
                v
            }
        },
    }
}

/// Returns the generated type text of a type reference (nullable at the top,
/// as a bare reference is in a schema).
pub fn rust_type_text(t: &GqlType) -> (r: String)
    ensures
        r@ == spec_rust_type(*t, true),
{
    rust_type_with(t, true)
}

/// One argument of an operation.
pub struct ArgDef {
    /// The argument name.
    pub arg_name: String,
    /// The declared type reference.
    pub arg_type: GqlType,
}

/// One field of an object or input type.
pub struct FieldDef {
    /// The field name.
    pub field_name: String,
    /// The declared type reference.
    pub field_type: GqlType,
}

/// One object or input type.
pub struct ObjectDef {
    /// The type name.
    pub obj_name: String,
    /// Whether this is an input type.
    pub is_input: bool,
    /// The fields, in declaration order.
    pub fields: Vec<FieldDef>,
}

/// One enum type.
pub struct EnumDef {
    /// The enum name.
    pub enum_name: String,
    /// The variants, in declaration order.
    pub variants: Vec<String>,
}

/// One operation.
pub struct OperationDef {
    /// The kind under which the schema declares it.
    pub kind: OpKind,
    /// The operation name.
    pub op_name: String,
    /// The declared return type.
    pub return_type: GqlType,
    /// The arguments, in declaration order.
    pub args: Vec<ArgDef>,
}

/// A whole schema, as the pipeline consumes it.
pub struct SchemaModel {
    /// The object and input types.
    pub objects: Vec<ObjectDef>,
    /// The enum types.
    pub enums: Vec<EnumDef>,
    /// The operations.
    pub operations: Vec<OperationDef>,
}

} // verus!
