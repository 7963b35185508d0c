//! The override resolver: folds option/override directives left to right into
//! a configuration object, with "last writer wins" semantics per slot and the
//! asymmetric transitions of the six visibility flags.
use crate::assoc::StrMap;
use vstd::prelude::*;
use vstd::string::StringExecFns;

verus! {

/// A `type_override` directive: `Type.field: NewType` (no `arg_name`) or
/// `Type.field.arg: NewType`. For operations the operation kind
/// (`Query`/`Mutation`/`Subscription`) stands in the type slot.
#[derive(Debug)]
pub struct TypeOverride {
    /// The schema type (or operation kind) the override applies to.
    pub owner_name: String,
    /// The field (or operation name) the override applies to.
    pub field_name: String,
    /// The argument name, when the override targets one argument.
    pub arg_name: Option<String>,
    /// The replacement type text.
    pub new_type: String,
}

/// A `name_override` directive: `Type: NewName` (no `member_name`) or
/// `Type.fieldOrVariant: NewName`.
#[derive(Debug)]
pub struct NameOverride {
    /// The schema type the rename applies to.
    pub owner_name: String,
    /// The field or enum variant renamed, when the rename targets a member.
    pub member_name: Option<String>,
    /// The replacement name.
    pub new_name: String,
}

/// One recognized `key = value` directive.
#[derive(Debug)]
pub enum OptionalParameter {
    /// `batch = <bool>`: overwrites the batch flag unconditionally.
    Batch(bool),
    /// `exclude_lambda_handler = <bool>`.
    ExcludeLambdaHandler(bool),
    /// `only_lambda_handler = <bool>`.
    OnlyLambdaHandler(bool),
    /// `exclude_appsync_types = <bool>`.
    ExcludeAppsyncTypes(bool),
    /// `only_appsync_types = <bool>`.
    OnlyAppsyncTypes(bool),
    /// `exclude_appsync_operations = <bool>`.
    ExcludeAppsyncOperations(bool),
    /// `only_appsync_operations = <bool>`.
    OnlyAppsyncOperations(bool),
    /// `hook = <identifier>`: overwrites the hook slot unconditionally.
    Hook(String),
    /// `type_override = ...` (also reached by the deprecated alias
    /// `field_type_override`).
    TypeOv(TypeOverride),
    /// `name_override = ...`.
    NameOv(NameOverride),
}

/// The mathematical shape of a directive: the same tags, over character
/// sequences.
pub ghost enum DirectiveView {
    /// `batch = <bool>`.
    Batch(bool),
    /// `exclude_lambda_handler = <bool>`.
    ExcludeLambdaHandler(bool),
    /// `only_lambda_handler = <bool>`.
    OnlyLambdaHandler(bool),
    /// `exclude_appsync_types = <bool>`.
    ExcludeAppsyncTypes(bool),
    /// `only_appsync_types = <bool>`.
    OnlyAppsyncTypes(bool),
    /// `exclude_appsync_operations = <bool>`.
    ExcludeAppsyncOperations(bool),
    /// `only_appsync_operations = <bool>`.
    OnlyAppsyncOperations(bool),
    /// `hook = <identifier>`.
    Hook(Seq<char>),
    /// A type override, field-level when `arg` is `None`.
    TypeOv { owner: Seq<char>, field: Seq<char>, arg: Option<Seq<char>>, new_type: Seq<char> },
    /// A name override, type-level when `member` is `None`.
    NameOv { owner: Seq<char>, member: Option<Seq<char>>, new_name: Seq<char> },
}

impl View for TypeOverride {
    type V = DirectiveView;

    open spec fn view(&self) -> DirectiveView {
        DirectiveView::TypeOv {
            owner: self.owner_name@,
            field: self.field_name@,
            arg: match self.arg_name {
                Some(a) => Some(a@),
                None => None,
            },
            new_type: self.new_type@,
        }
    }
}

impl View for NameOverride {
    type V = DirectiveView;

    open spec fn view(&self) -> DirectiveView {
        DirectiveView::NameOv {
            owner: self.owner_name@,
            member: match self.member_name {
                Some(m) => Some(m@),
                None => None,
            },
            new_name: self.new_name@,
        }
    }
}

impl View for OptionalParameter {
    type V = DirectiveView;

    open spec fn view(&self) -> DirectiveView {
        match self {
            OptionalParameter::Batch(b) => DirectiveView::Batch(*b),
            OptionalParameter::ExcludeLambdaHandler(b) => DirectiveView::ExcludeLambdaHandler(*b),
            OptionalParameter::OnlyLambdaHandler(b) => DirectiveView::OnlyLambdaHandler(*b),
            OptionalParameter::ExcludeAppsyncTypes(b) => DirectiveView::ExcludeAppsyncTypes(*b),
            OptionalParameter::OnlyAppsyncTypes(b) => DirectiveView::OnlyAppsyncTypes(*b),
            OptionalParameter::ExcludeAppsyncOperations(b) => DirectiveView::ExcludeAppsyncOperations(
                *b,
            ),
            OptionalParameter::OnlyAppsyncOperations(b) => DirectiveView::OnlyAppsyncOperations(*b),
            OptionalParameter::Hook(h) => DirectiveView::Hook(h@),
            OptionalParameter::TypeOv(to) => to@,
            OptionalParameter::NameOv(no) => no@,
        }
    }
}

/// The key `a.b` under which a two-level override slot is stored.
pub open spec fn dotted(a: Seq<char>, b: Seq<char>) -> Seq<char> {
    a + seq!['.'] + b
}

/// The key `a.b.c` under which an argument-level override slot is stored.
pub open spec fn dotted3(a: Seq<char>, b: Seq<char>, c: Seq<char>) -> Seq<char> {
    a + seq!['.'] + b + seq!['.'] + c
}

/// The mathematical model of a resolved configuration.
#[verifier::ext_equal]
pub ghost struct ConfigView {
    /// Whether the batch handler is generated.
    pub batch: bool,
    /// Whether the schema type declarations are generated.
    pub appsync_types: bool,
    /// Whether the operation declarations are generated.
    pub appsync_operations: bool,
    /// Whether the Lambda handler and runtime assembly are generated.
    pub lambda_handler: bool,
    /// The identifier of the short-circuit hook, if one was declared.
    pub hook: Option<Seq<char>>,
    /// `Type.field` -> replacement type.
    pub field_type_ov: Map<Seq<char>, Seq<char>>,
    /// `Type.field.arg` -> replacement type.
    pub arg_type_ov: Map<Seq<char>, Seq<char>>,
    /// `Type` -> replacement name.
    pub type_rn: Map<Seq<char>, Seq<char>>,
    /// `Type.member` -> replacement name.
    pub member_rn: Map<Seq<char>, Seq<char>>,
}

/// The configuration before any directive: every visibility flag on, no hook,
/// no overrides.
pub open spec fn initial_config() -> ConfigView {
    ConfigView {
        batch: true,
        appsync_types: true,
        appsync_operations: true,
        lambda_handler: true,
        hook: None,
        field_type_ov: Map::empty(),
        arg_type_ov: Map::empty(),
        type_rn: Map::empty(),
        member_rn: Map::empty(),
    }
}

/// The transition of one directive: `batch` and `hook` overwrite
/// unconditionally; a `false`-valued visibility directive is a no-op; a
/// `true`-valued one applies its fixed transition; an override overwrites
/// exactly its slot.
pub open spec fn apply_directive(c: ConfigView, d: DirectiveView) -> ConfigView {
    match d {
        DirectiveView::Batch(b) => ConfigView { batch: b, ..c },
        DirectiveView::ExcludeLambdaHandler(b) => if b {
            ConfigView { lambda_handler: false, ..c }
        } else {
            c
        },
        DirectiveView::OnlyLambdaHandler(b) => if b {
            ConfigView {
                lambda_handler: true,
                appsync_types: false,
                appsync_operations: false,
                ..c
            }
        } else {
            c
        },
        DirectiveView::ExcludeAppsyncTypes(b) => if b {
            ConfigView { appsync_types: false, ..c }
        } else {
            c
        },
        DirectiveView::OnlyAppsyncTypes(b) => if b {
            ConfigView {
                lambda_handler: false,
                appsync_types: true,
                appsync_operations: false,
                ..c
            }
        } else {
            c
        },
        DirectiveView::ExcludeAppsyncOperations(b) => if b {
            ConfigView { appsync_operations: false, ..c }
        } else {
            c
        },
        DirectiveView::OnlyAppsyncOperations(b) => if b {
            ConfigView {
                lambda_handler: false,
                appsync_types: false,
                appsync_operations: true,
                ..c
            }
        } else {
            c
        },
        DirectiveView::Hook(h) => ConfigView { hook: Some(h), ..c },
        DirectiveView::TypeOv { owner, field, arg, new_type } => match arg {
            None => ConfigView {
                field_type_ov: c.field_type_ov.insert(dotted(owner, field), new_type),
                ..c
            },
            Some(a) => ConfigView {
                arg_type_ov: c.arg_type_ov.insert(dotted3(owner, field, a), new_type),
                ..c
            },
        },
        DirectiveView::NameOv { owner, member, new_name } => match member {
            None => ConfigView { type_rn: c.type_rn.insert(owner, new_name), ..c },
            Some(m) => ConfigView { member_rn: c.member_rn.insert(dotted(owner, m), new_name), ..c },
        },
    }
}

/// Folds a directive sequence left to right.
pub open spec fn fold_directives(c: ConfigView, ds: Seq<DirectiveView>) -> ConfigView
    decreases ds.len(),
{
    if ds.len() == 0 {
        c
    } else {
        fold_directives(apply_directive(c, ds[0]), ds.drop_first())
    }
}

/// The resolved configuration: visibility flags, optional hook, and the four
/// override maps. The hierarchical maps of the directive language
/// (type -> field -> slot) are stored flat, keyed by the dotted path of the
/// slot; the view presents them as mappings again.
#[derive(Debug)]
pub struct OptionalParameters {
    /// Whether the batch handler is generated (default true).
    pub batch: bool,
    /// Whether the schema type declarations are generated.
    pub appsync_types: bool,
    /// Whether the operation declarations are generated.
    pub appsync_operations: bool,
    /// Whether the Lambda handler and runtime assembly are generated.
    pub lambda_handler: bool,
    /// The identifier of the short-circuit hook, if one was declared.
    pub hook: Option<String>,
    /// `Type.field` -> replacement type.
    pub field_type_overrides: StrMap<String>,
    /// `Type.field.arg` -> replacement type.
    pub arg_type_overrides: StrMap<String>,
    /// `Type` -> replacement name.
    pub type_renames: StrMap<String>,
    /// `Type.member` -> replacement name.
    pub member_renames: StrMap<String>,
}

/// The mapping a string-keyed container currently represents, as sequences.
pub open spec fn str_map_view(m: StrMap<String>) -> Map<Seq<char>, Seq<char>> {
    Map::new(|k: Seq<char>| m.spec_get(k) is Some, |k: Seq<char>| m.spec_get(k)->Some_0@)
}

impl View for OptionalParameters {
    type V = ConfigView;

    open spec fn view(&self) -> ConfigView {
        ConfigView {
            batch: self.batch,
            appsync_types: self.appsync_types,
            appsync_operations: self.appsync_operations,
            lambda_handler: self.lambda_handler,
            hook: match self.hook {
                Some(h) => Some(h@),
                None => None,
            },
            field_type_ov: str_map_view(self.field_type_overrides),
            arg_type_ov: str_map_view(self.arg_type_overrides),
            type_rn: str_map_view(self.type_renames),
            member_rn: str_map_view(self.member_renames),
        }
    }
}

impl Default for OptionalParameters {
    /// The starting configuration.
    fn default() -> (r: OptionalParameters)
        ensures
            r@ == initial_config(),
    {
        let r = OptionalParameters {
            batch: true,
            appsync_types: true,
            appsync_operations: true,
            lambda_handler: true,
            hook: None,
            field_type_overrides: StrMap::new(),
            arg_type_overrides: StrMap::new(),
            type_renames: StrMap::new(),
            member_renames: StrMap::new(),
        };
        proof {
            assert(str_map_view(r.field_type_overrides) =~= Map::<Seq<char>, Seq<char>>::empty());
            assert(str_map_view(r.arg_type_overrides) =~= Map::<Seq<char>, Seq<char>>::empty());
            assert(str_map_view(r.type_renames) =~= Map::<Seq<char>, Seq<char>>::empty());
            assert(str_map_view(r.member_renames) =~= Map::<Seq<char>, Seq<char>>::empty());
            assert(r@ =~= initial_config());
        }
        r
    }
}

impl OptionalParameters {
    /// Folds one directive into the configuration.
    pub fn set(&mut self, p: OptionalParameter)
        ensures
            final(self)@ == apply_directive(old(self)@, p@),
    {
        let ghost pre = *self;
        match p {
            OptionalParameter::Batch(b) => {
                self.batch = b;
            },
            OptionalParameter::ExcludeLambdaHandler(b) => {
                if b {
                    self.lambda_handler = false;
                }
            },
            OptionalParameter::OnlyLambdaHandler(b) => {
                if b {
                    self.lambda_handler = true;
                    self.appsync_types = false;
                    self.appsync_operations = false;
                }
            },
            OptionalParameter::ExcludeAppsyncTypes(b) => {
                if b {
                    self.appsync_types = false;
                }
            },
            OptionalParameter::OnlyAppsyncTypes(b) => {
                if b {
                    self.lambda_handler = false;
                    self.appsync_types = true;
                    self.appsync_operations = false;
                }
            },
            OptionalParameter::ExcludeAppsyncOperations(b) => {
                if b {
                    self.appsync_operations = false;
                }
            },
            OptionalParameter::OnlyAppsyncOperations(b) => {
                if b {
                    self.lambda_handler = false;
                    self.appsync_types = false;
                    self.appsync_operations = true;
                }
            },
            OptionalParameter::Hook(h) => {
                self.hook = Some(h);
            },
            OptionalParameter::TypeOv(to) => {
                let TypeOverride { owner_name, field_name, arg_name, new_type } = to;
                proof {
                    reveal_strlit(".");
                }
                match arg_name {
                    None => {
                        let key = owner_name.concat(".").concat(field_name.as_str());
                        proof {
                            assert(key@ =~= dotted(owner_name@, field_name@));
                        }
                        self.field_type_overrides.set_value(key.as_str(), new_type);
                        proof {
                            assert(str_map_view(self.field_type_overrides) =~= str_map_view(
                                pre.field_type_overrides,
                            ).insert(dotted(owner_name@, field_name@), new_type@));
                        }
                    },
                    Some(a) => {
                        let key = owner_name.concat(".").concat(field_name.as_str()).concat(
                            ".",
                        ).concat(a.as_str());
                        proof {
                            assert(key@ =~= dotted3(owner_name@, field_name@, a@));
                        }
                        self.arg_type_overrides.set_value(key.as_str(), new_type);
                        proof {
                            assert(str_map_view(self.arg_type_overrides) =~= str_map_view(
                                pre.arg_type_overrides,
                            ).insert(dotted3(owner_name@, field_name@, a@), new_type@));
                        }
                    },
                }
            },
            OptionalParameter::NameOv(no) => {
                let NameOverride { owner_name, member_name, new_name } = no;
                proof {
                    reveal_strlit(".");
                }
                match member_name {
                    None => {
                        self.type_renames.set_value(owner_name.as_str(), new_name);
                        proof {
                            assert(str_map_view(self.type_renames) =~= str_map_view(
                                pre.type_renames,
                            ).insert(owner_name@, new_name@));
                        }
                    },
                    Some(m) => {
                        let key = owner_name.concat(".").concat(m.as_str());
                        proof {
                            assert(key@ =~= dotted(owner_name@, m@));
                        }
                        self.member_renames.set_value(key.as_str(), new_name);
                        proof {
                            assert(str_map_view(self.member_renames) =~= str_map_view(
                                pre.member_renames,
                            ).insert(dotted(owner_name@, m@), new_name@));
                        }
                    },
                }
            },
        }
        proof {
            assert(final(self)@ =~= apply_directive(pre@, p@));
        }
    }
}

/// The newest field-level write to slot `k` in a directive sequence, if any.
pub open spec fn net_field_override(ds: Seq<DirectiveView>, k: Seq<char>) -> Option<Seq<char>>
    decreases ds.len(),
{
    if ds.len() == 0 {
        None
    } else {
        match net_field_override(ds.drop_first(), k) {
            Some(t) => Some(t),
            None => match ds[0] {
                DirectiveView::TypeOv { owner, field, arg, new_type } => if arg is None && dotted(
                    owner,
                    field,
                ) == k {
                    Some(new_type)
                } else {
                    None
                },
                _ => None,
            },
        }
    }
}

/// Over any directive sequence, a field-level override slot holds exactly the
/// newest value written to it; a sequence that never writes the slot leaves
/// it as it began. In particular no other directive — argument-level
/// overrides on the same field included — clobbers it.
pub proof fn lemma_field_slot_last_writer(c0: ConfigView, ds: Seq<DirectiveView>, k: Seq<char>)
    ensures
        ({
            let m = fold_directives(c0, ds).field_type_ov;
            match net_field_override(ds, k) {
                Some(t) => m.contains_key(k) && m[k] == t,
                None => m.contains_key(k) == c0.field_type_ov.contains_key(k) && (
                c0.field_type_ov.contains_key(k) ==> m[k] == c0.field_type_ov[k]),
            }
        }),
    decreases ds.len(),
{
    if ds.len() > 0 {
        lemma_field_slot_last_writer(apply_directive(c0, ds[0]), ds.drop_first(), k);
    }
}

/// A field-level type override and an argument-level type override aimed at
/// the same field coexist: applying one and then the other, in either order,
/// leaves both slots set. A second write to the same slot replaces the first:
/// the slot always holds the newest value written to it.
pub proof fn lemma_field_and_arg_override_coexist(
    c0: ConfigView,
    owner: Seq<char>,
    field: Seq<char>,
    a: Seq<char>,
    ty_field: Seq<char>,
    ty_arg: Seq<char>,
)
    ensures
        ({
            let c2 = apply_directive(
                apply_directive(
                    c0,
                    DirectiveView::TypeOv { owner, field, arg: None, new_type: ty_field },
                ),
                DirectiveView::TypeOv { owner, field, arg: Some(a), new_type: ty_arg },
            );
            c2.field_type_ov[dotted(owner, field)] == ty_field && c2.arg_type_ov[dotted3(
                owner,
                field,
                a,
            )] == ty_arg
        }),
        ({
            let c2 = apply_directive(
                apply_directive(
                    c0,
                    DirectiveView::TypeOv { owner, field, arg: Some(a), new_type: ty_arg },
                ),
                DirectiveView::TypeOv { owner, field, arg: None, new_type: ty_field },
            );
            c2.field_type_ov[dotted(owner, field)] == ty_field && c2.arg_type_ov[dotted3(
                owner,
                field,
                a,
            )] == ty_arg
        }),
{
}

/// A second field-level override for the same field replaces the first.
pub proof fn lemma_second_field_override_replaces(
    c0: ConfigView,
    owner: Seq<char>,
    field: Seq<char>,
    ty_first: Seq<char>,
    ty_second: Seq<char>,
)
    ensures
        apply_directive(
            apply_directive(
                c0,
                DirectiveView::TypeOv { owner, field, arg: None, new_type: ty_first },
            ),
            DirectiveView::TypeOv { owner, field, arg: None, new_type: ty_second },
        ).field_type_ov[dotted(owner, field)] == ty_second,
{
}

/// `only_appsync_types = true` followed by `exclude_lambda_handler = true`
/// leaves the handler off, the type declarations on and the operation
/// declarations off, from any starting configuration.
pub proof fn lemma_only_types_then_exclude_handler(c0: ConfigView)
    ensures
        ({
            let c2 = apply_directive(
                apply_directive(c0, DirectiveView::OnlyAppsyncTypes(true)),
                DirectiveView::ExcludeLambdaHandler(true),
            );
            !c2.lambda_handler && c2.appsync_types && !c2.appsync_operations
        }),
{
}

/// `batch = true` followed by `batch = false` yields `batch = false`, from any
/// starting configuration.
pub proof fn lemma_batch_last_writer_wins(c0: ConfigView)
    ensures
        !apply_directive(
            apply_directive(c0, DirectiveView::Batch(true)),
            DirectiveView::Batch(false),
        ).batch,
{
}

} // verus!
