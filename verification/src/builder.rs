//! The declaration builder: walks the schema model, applies the resolved
//! renames and type overrides, and produces the declaration set. A rename or
//! override changes only the generated surface; the wire name of every
//! element stays the schema-declared name.
use crate::assoc::StrMap;
use crate::options::{dotted, dotted3, str_map_view, ConfigView, OptionalParameters};
use crate::schema::{
    spec_op_kind_name,
    spec_rust_type,
    op_kind_name,
    rust_type_text,
    ArgDef,
    EnumDef,
    FieldDef,
    ObjectDef,
    OpKind,
    OperationDef,
    SchemaModel,
};
use vstd::prelude::*;
use vstd::string::StringExecFns;

verus! {

/// One generated field: its generated name, its wire name, and its generated
/// type text.
pub struct FieldDecl {
    /// The name in the generated declaration.
    pub rust_name: String,
    /// The schema-declared name used on the wire.
    pub wire_name: String,
    /// The generated type text.
    pub rust_type: String,
}

/// One generated object or input type.
pub struct TypeDecl {
    /// The name in the generated declaration.
    pub rust_name: String,
    /// The schema-declared name.
    pub wire_name: String,
    /// Whether this is an input type.
    pub is_input: bool,
    /// The generated fields, in declaration order.
    pub fields: Vec<FieldDecl>,
}

/// One generated enum variant: its generated name and its wire value.
pub struct VariantDecl {
    /// The name in the generated declaration.
    pub rust_name: String,
    /// The schema-declared value used on the wire.
    pub wire_value: String,
}

/// One generated enum.
pub struct EnumDecl {
    /// The name in the generated declaration.
    pub rust_name: String,
    /// The schema-declared name.
    pub wire_name: String,
    /// The generated variants, in declaration order.
    pub variants: Vec<VariantDecl>,
}

/// One generated operation argument.
pub struct ArgDecl {
    /// The argument name.
    pub arg_name: String,
    /// The generated type text.
    pub rust_type: String,
}

/// One generated operation: one tagged variant of the dispatch union.
pub struct OperationDecl {
    /// The operation kind.
    pub kind: OpKind,
    /// The operation name.
    pub op_name: String,
    /// The generated return type text.
    pub rust_return_type: String,
    /// The generated arguments, in declaration order.
    pub args: Vec<ArgDecl>,
}

/// The declaration set: the pipeline's output artifact.
pub struct Declarations {
    /// One declaration per object/input type.
    pub types: Vec<TypeDecl>,
    /// One declaration per enum.
    pub enums: Vec<EnumDecl>,
    /// One declaration per operation.
    pub operations: Vec<OperationDecl>,
}

/// The value bound to `k`, or `dflt` when the map holds no binding for it.
pub open spec fn override_or(
    m: Map<Seq<char>, Seq<char>>,
    k: Seq<char>,
    dflt: Seq<char>,
) -> Seq<char> {
    if m.contains_key(k) {
        m[k]
    } else {
        dflt
    }
}

/// A generated field is correct: the wire name is the schema name, the
/// generated name follows the member rename slot, and the type text follows
/// the field-level override slot or the default mapping.
pub open spec fn field_decl_ok(fd: FieldDecl, f: FieldDef, owner: Seq<char>, c: ConfigView) -> bool {
    &&& fd.wire_name@ == f.field_name@
    &&& fd.rust_name@ == override_or(c.member_rn, dotted(owner, f.field_name@), f.field_name@)
    &&& fd.rust_type@ == override_or(
        c.field_type_ov,
        dotted(owner, f.field_name@),
        spec_rust_type(f.field_type, true),
    )
}

/// A generated type declaration is correct for its schema type.
pub open spec fn object_decl_ok(d: TypeDecl, o: ObjectDef, c: ConfigView) -> bool {
    &&& d.wire_name@ == o.obj_name@
    &&& d.rust_name@ == override_or(c.type_rn, o.obj_name@, o.obj_name@)
    &&& d.is_input == o.is_input
    &&& d.fields@.len() == o.fields@.len()
    &&& forall|j: int|
        0 <= j < o.fields@.len() ==> field_decl_ok(#[trigger] d.fields@[j], o.fields@[j], o.obj_name@, c)
}

/// A generated variant is correct: the wire value is the schema value, the
/// generated name follows the member rename slot.
pub open spec fn variant_decl_ok(
    vd: VariantDecl,
    v: Seq<char>,
    owner: Seq<char>,
    c: ConfigView,
) -> bool {
    &&& vd.wire_value@ == v
    &&& vd.rust_name@ == override_or(c.member_rn, dotted(owner, v), v)
}

/// A generated enum declaration is correct for its schema enum.
pub open spec fn enum_decl_ok(d: EnumDecl, e: EnumDef, c: ConfigView) -> bool {
    &&& d.wire_name@ == e.enum_name@
    &&& d.rust_name@ == override_or(c.type_rn, e.enum_name@, e.enum_name@)
    &&& d.variants@.len() == e.variants@.len()
    &&& forall|j: int|
        0 <= j < e.variants@.len() ==> variant_decl_ok(
            #[trigger] d.variants@[j],
            e.variants@[j]@,
            e.enum_name@,
            c,
        )
}

/// A generated argument is correct: the type text follows the argument-level
/// override slot (keyed by kind, operation and argument) or the default
/// mapping.
pub open spec fn arg_decl_ok(
    ad: ArgDecl,
    a: ArgDef,
    kind: OpKind,
    op: Seq<char>,
    c: ConfigView,
) -> bool {
    &&& ad.arg_name@ == a.arg_name@
    &&& ad.rust_type@ == override_or(
        c.arg_type_ov,
        dotted3(spec_op_kind_name(kind), op, a.arg_name@),
        spec_rust_type(a.arg_type, true),
    )
}

/// A generated operation is correct: the tag is the schema kind and name, the
/// return type follows the override slot keyed by the kind pseudo-type, and
/// every argument is correct.
pub open spec fn operation_decl_ok(d: OperationDecl, o: OperationDef, c: ConfigView) -> bool {
    &&& d.kind == o.kind
    &&& d.op_name@ == o.op_name@
    &&& d.rust_return_type@ == override_or(
        c.field_type_ov,
        dotted(spec_op_kind_name(o.kind), o.op_name@),
        spec_rust_type(o.return_type, true),
    )
    &&& d.args@.len() == o.args@.len()
    &&& forall|j: int|
        0 <= j < o.args@.len() ==> arg_decl_ok(#[trigger] d.args@[j], o.args@[j], o.kind, o.op_name@, c)
}

/// The whole declaration set is correct: one correct declaration per schema
/// element, in schema order.
pub open spec fn declarations_ok(r: Declarations, s: SchemaModel, c: ConfigView) -> bool {
    &&& r.types@.len() == s.objects@.len()
    &&& forall|i: int|
        0 <= i < s.objects@.len() ==> object_decl_ok(#[trigger] r.types@[i], s.objects@[i], c)
    &&& r.enums@.len() == s.enums@.len()
    &&& forall|i: int|
        0 <= i < s.enums@.len() ==> enum_decl_ok(#[trigger] r.enums@[i], s.enums@[i], c)
    &&& r.operations@.len() == s.operations@.len()
    &&& forall|i: int|
        0 <= i < s.operations@.len() ==> operation_decl_ok(
            #[trigger] r.operations@[i],
            s.operations@[i],
            c,
        )
}

/// An operation declaration carries the given tag.
pub open spec fn op_matches(d: OperationDecl, kind: OpKind, name: Seq<char>) -> bool {
    d.kind == kind && d.op_name@ == name
}

/// Routes an inbound operation tag to its slot in the dispatch table: the
/// first declaration carrying the tag, or nothing when the schema declares no
/// such operation.
pub fn find_operation(ops: &Vec<OperationDecl>, kind: OpKind, name: &str) -> (r: Option<usize>)
    ensures
        match r {
            Some(i) => i < ops@.len() && op_matches(ops@[i as int], kind, name@) && forall|j: int|
                0 <= j < i ==> !op_matches(ops@[j], kind, name@),
            None => forall|j: int| 0 <= j < ops@.len() ==> !op_matches(ops@[j], kind, name@),
        },
{
    let n = ops.len();
    let mut i: usize = 0;
    while i < n
        invariant
            i <= n,
            n == ops@.len(),
            forall|j: int| 0 <= j < i ==> !op_matches(ops@[j], kind, name@),
        decreases n - i,
    {
        let d = &ops[i];
        if d.kind == kind && crate::strutil::str_eq(d.op_name.as_str(), name) {
            return Some(i);
        }
        i = i + 1;
    }
    None
}

/// Looks a slot up, returning its value or the given default.
fn slot_or(m: &StrMap<String>, key: &str, dflt: String) -> (r: String)
    ensures
        r@ == override_or(str_map_view(*m), key@, dflt@),
{
    match m.get_value(key) {
        Some(v) => v.clone(),
        None => dflt,
    }
}

/// Builds the dotted key `owner.member`.
fn dotted_key(owner: &str, member: &str) -> (r: String)
    ensures
        r@ == dotted(owner@, member@),
{
    proof {
        reveal_strlit(".");
    }
    let r = owner.to_owned().concat(".").concat(member);
    proof {
        assert(r@ =~= dotted(owner@, member@));
    }
    r
}

/// Builds the dotted key `owner.member.arg`.
fn dotted3_key(owner: &str, member: &str, arg: &str) -> (r: String)
    ensures
        r@ == dotted3(owner@, member@, arg@),
{
    proof {
        reveal_strlit(".");
    }
    let r = owner.to_owned().concat(".").concat(member).concat(".").concat(arg);
    proof {
        assert(r@ =~= dotted3(owner@, member@, arg@));
    }
    r
}

/// Builds one field declaration.
fn build_field(f: &FieldDef, owner: &str, options: &OptionalParameters) -> (r: FieldDecl)
    ensures
        field_decl_ok(r, *f, owner@, options@),
{
    let key = dotted_key(owner, f.field_name.as_str());
    let rust_name = slot_or(&options.member_renames, key.as_str(), f.field_name.clone());
    let rust_type = slot_or(&options.field_type_overrides, key.as_str(), rust_type_text(&f.field_type));
    FieldDecl { rust_name, wire_name: f.field_name.clone(), rust_type }
}

/// Builds one type declaration.
fn build_object(o: &ObjectDef, options: &OptionalParameters) -> (r: TypeDecl)
    ensures
        object_decl_ok(r, *o, options@),
{
    let rust_name = slot_or(&options.type_renames, o.obj_name.as_str(), o.obj_name.clone());
    let mut fields: Vec<FieldDecl> = Vec::new();
    let n = o.fields.len();
    let mut j: usize = 0;
    while j < n
        invariant
            j <= n,
            n == o.fields@.len(),
            fields@.len() == j,
            forall|k: int|
                0 <= k < j ==> field_decl_ok(
                    #[trigger] fields@[k],
                    o.fields@[k],
                    o.obj_name@,
                    options@,
                ),
        decreases n - j,
    {
        let fd = build_field(&o.fields[j], o.obj_name.as_str(), options);
        fields.push(fd);
        j = j + 1;
    }
    TypeDecl { rust_name, wire_name: o.obj_name.clone(), is_input: o.is_input, fields }
}

/// Builds one enum declaration.
fn build_enum(e: &EnumDef, options: &OptionalParameters) -> (r: EnumDecl)
    ensures
        enum_decl_ok(r, *e, options@),
{
    let rust_name = slot_or(&options.type_renames, e.enum_name.as_str(), e.enum_name.clone());
    let mut variants: Vec<VariantDecl> = Vec::new();
    let n = e.variants.len();
    let mut j: usize = 0;
    while j < n
        invariant
            j <= n,
            n == e.variants@.len(),
            variants@.len() == j,
            forall|k: int|
                0 <= k < j ==> variant_decl_ok(
                    #[trigger] variants@[k],
                    e.variants@[k]@,
                    e.enum_name@,
                    options@,
                ),
        decreases n - j,
    {
        let v = &e.variants[j];
        let key = dotted_key(e.enum_name.as_str(), v.as_str());
        let vd = VariantDecl {
            rust_name: slot_or(&options.member_renames, key.as_str(), v.clone()),
            wire_value: v.clone(),
        };
        variants.push(vd);
        j = j + 1;
    }
    EnumDecl { rust_name, wire_name: e.enum_name.clone(), variants }
}

/// Builds one operation declaration.
fn build_operation(o: &OperationDef, options: &OptionalParameters) -> (r: OperationDecl)
    ensures
        operation_decl_ok(r, *o, options@),
{
    let kind_name = op_kind_name(o.kind);
    let ret_key = dotted_key(kind_name, o.op_name.as_str());
    let rust_return_type = slot_or(
        &options.field_type_overrides,
        ret_key.as_str(),
        rust_type_text(&o.return_type),
    );
    let mut args: Vec<ArgDecl> = Vec::new();
    let n = o.args.len();
    let mut j: usize = 0;
    while j < n
        invariant
            j <= n,
            n == o.args@.len(),
            args@.len() == j,
            kind_name@ == spec_op_kind_name(o.kind),
            forall|k: int|
                0 <= k < j ==> arg_decl_ok(#[trigger] args@[k], o.args@[k], o.kind, o.op_name@, options@),
        decreases n - j,
    {
        let a = &o.args[j];
        let key = dotted3_key(kind_name, o.op_name.as_str(), a.arg_name.as_str());
        let ad = ArgDecl {
            arg_name: a.arg_name.clone(),
            rust_type: slot_or(
                &options.arg_type_overrides,
                key.as_str(),
                rust_type_text(&a.arg_type),
            ),
        };
        args.push(ad);
        j = j + 1;
    }
    OperationDecl { kind: o.kind, op_name: o.op_name.clone(), rust_return_type, args }
}

/// Builds the declaration set for a schema under a resolved configuration.
pub fn build_declarations(schema: &SchemaModel, options: &OptionalParameters) -> (r: Declarations)
    ensures
        declarations_ok(r, *schema, options@),
{
    let mut types: Vec<TypeDecl> = Vec::new();
    let n = schema.objects.len();
    let mut i: usize = 0;
    while i < n
        invariant
            i <= n,
            n == schema.objects@.len(),
            types@.len() == i,
            forall|k: int|
                0 <= k < i ==> object_decl_ok(#[trigger] types@[k], schema.objects@[k], options@),
        decreases n - i,
    {
        let d = build_object(&schema.objects[i], options);
        types.push(d);
        i = i + 1;
    }
    let mut enums: Vec<EnumDecl> = Vec::new();
    let m = schema.enums.len();
    let mut i2: usize = 0;
    while i2 < m
        invariant
            i2 <= m,
            m == schema.enums@.len(),
            enums@.len() == i2,
            forall|k: int|
                0 <= k < i2 ==> enum_decl_ok(#[trigger] enums@[k], schema.enums@[k], options@),
        decreases m - i2,
    {
        let d = build_enum(&schema.enums[i2], options);
        enums.push(d);
        i2 = i2 + 1;
    }
    let mut operations: Vec<OperationDecl> = Vec::new();
    let p = schema.operations.len();
    let mut i3: usize = 0;
    while i3 < p
        invariant
            i3 <= p,
            p == schema.operations@.len(),
            operations@.len() == i3,
            forall|k: int|
                0 <= k < i3 ==> operation_decl_ok(
                    #[trigger] operations@[k],
                    schema.operations@[k],
                    options@,
                ),
        decreases p - i3,
    {
        let d = build_operation(&schema.operations[i3], options);
        operations.push(d);
        i3 = i3 + 1;
    }
    Declarations { types, enums, operations }
}

} // verus!
