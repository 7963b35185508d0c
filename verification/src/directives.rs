//! The directive parser: classifies one argument-list item as an
//! `identifier = value` option directive or a client declaration
//! `identifier() -> Type`, and parses the override value grammars
//! `Type.field[.arg]: NewType` and `Type[.member]: NewName`.
//!
//! Each executable parser is proved equal to a deterministic specification
//! parser over the item's characters, so a caller knows exactly which items
//! are accepted, what they parse to, and which error every rejected item
//! raises.
use crate::errors::GenError;
use crate::options::{DirectiveView, NameOverride, OptionalParameter, TypeOverride};
use crate::strutil::{
    ident_end,
    is_ident_start_char,
    rtrim_idx,
    rtrim_pos,
    scan_ident_end,
    skip_spaces,
    sp,
    str_eq,
};
use vstd::prelude::*;
use vstd::string::StrSliceExecFns;

verus! {

/// A client declaration `name() -> Type`: a zero-argument accessor for an
/// external-service client of the given type.
#[derive(Debug)]
pub struct ClientSpec {
    /// The accessor function name.
    pub fct_name: String,
    /// The client type text.
    pub client_type: String,
}

/// One classified argument-list item.
#[derive(Debug)]
pub enum ParsedItem {
    /// An `identifier = value` option directive.
    Opt(OptionalParameter),
    /// A client declaration.
    Client(ClientSpec),
}

/// The mathematical shape of a classified item.
pub ghost enum ItemView {
    /// An option directive.
    Opt(DirectiveView),
    /// A client declaration: accessor name and client type text.
    Client { fct: Seq<char>, client_type: Seq<char> },
}

impl View for ParsedItem {
    type V = ItemView;

    open spec fn view(&self) -> ItemView {
        match self {
            ParsedItem::Opt(p) => ItemView::Opt(p@),
            ParsedItem::Client(c) => ItemView::Client {
                fct: c.fct_name@,
                client_type: c.client_type@,
            },
        }
    }
}

/// What classifying one item yields: a parsed item or one of the three
/// generation-time failures an item can raise.
pub ghost enum ItemOutcome {
    /// The item parses to this value.
    Accepted(ItemView),
    /// The item is `key = value` with an unrecognized key; carries exactly
    /// that key.
    UnknownOption(Seq<char>),
    /// The item is neither an option directive nor a client declaration.
    UnknownArgument,
    /// The item has a recognized key but its value does not match the key's
    /// grammar.
    Malformed,
}

/// Parses a boolean option value: one of the words `true` or `false`,
/// surrounded by spaces only.
pub open spec fn spec_bool_value(v: Seq<char>) -> Option<bool> {
    let i0 = sp(v, 0);
    let e = ident_end(v, i0);
    if e > i0 && sp(v, e) == v.len() {
        let w = v.subrange(i0, e);
        if w == "true"@ {
            Some(true)
        } else if w == "false"@ {
            Some(false)
        } else {
            None
        }
    } else {
        None
    }
}

/// Parses an identifier option value (the hook name), surrounded by spaces
/// only.
pub open spec fn spec_ident_value(v: Seq<char>) -> Option<Seq<char>> {
    let i0 = sp(v, 0);
    let e = ident_end(v, i0);
    if e > i0 && is_ident_start_char(v[i0]) && sp(v, e) == v.len() {
        Some(v.subrange(i0, e))
    } else {
        None
    }
}

/// Parses a `type_override` value: `Type.field: NewType` or
/// `Type.field.arg: NewType`, where the names are identifiers and the new
/// type is any non-empty text running to the end of the item.
pub open spec fn spec_type_override(v: Seq<char>) -> Option<DirectiveView> {
    let i0 = sp(v, 0);
    let e1 = ident_end(v, i0);
    if e1 == i0 || !is_ident_start_char(v[i0]) {
        None
    } else {
        let i1 = sp(v, e1);
        if i1 >= v.len() || v[i1] != '.' {
            None
        } else {
            let i2 = sp(v, i1 + 1);
            let e2 = ident_end(v, i2);
            if e2 == i2 || !is_ident_start_char(v[i2]) {
                None
            } else {
                let i3 = sp(v, e2);
                if i3 < v.len() && v[i3] == ':' {
                    let t0 = sp(v, i3 + 1);
                    let t1 = rtrim_idx(v);
                    if t0 < t1 {
                        Some(
                            DirectiveView::TypeOv {
                                owner: v.subrange(i0, e1),
                                field: v.subrange(i2, e2),
                                arg: None,
                                new_type: v.subrange(t0, t1),
                            },
                        )
                    } else {
                        None
                    }
                } else if i3 < v.len() && v[i3] == '.' {
                    let i4 = sp(v, i3 + 1);
                    let e3 = ident_end(v, i4);
                    if e3 == i4 || !is_ident_start_char(v[i4]) {
                        None
                    } else {
                        let i5 = sp(v, e3);
                        if i5 < v.len() && v[i5] == ':' {
                            let t0 = sp(v, i5 + 1);
                            let t1 = rtrim_idx(v);
                            if t0 < t1 {
                                Some(
                                    DirectiveView::TypeOv {
                                        owner: v.subrange(i0, e1),
                                        field: v.subrange(i2, e2),
                                        arg: Some(v.subrange(i4, e3)),
                                        new_type: v.subrange(t0, t1),
                                    },
                                )
                            } else {
                                None
                            }
                        } else {
                            None
                        }
                    }
                } else {
                    None
                }
            }
        }
    }
}

/// Parses a `name_override` value: `Type: NewName` or
/// `Type.member: NewName`, where every name is an identifier.
pub open spec fn spec_name_override(v: Seq<char>) -> Option<DirectiveView> {
    let i0 = sp(v, 0);
    let e1 = ident_end(v, i0);
    if e1 == i0 || !is_ident_start_char(v[i0]) {
        None
    } else {
        let i1 = sp(v, e1);
        if i1 < v.len() && v[i1] == ':' {
            let n0 = sp(v, i1 + 1);
            let n1 = ident_end(v, n0);
            if n1 > n0 && is_ident_start_char(v[n0]) && sp(v, n1) == v.len() {
                Some(
                    DirectiveView::NameOv {
                        owner: v.subrange(i0, e1),
                        member: None,
                        new_name: v.subrange(n0, n1),
                    },
                )
            } else {
                None
            }
        } else if i1 < v.len() && v[i1] == '.' {
            let i2 = sp(v, i1 + 1);
            let e2 = ident_end(v, i2);
            if e2 == i2 || !is_ident_start_char(v[i2]) {
                None
            } else {
                let i3 = sp(v, e2);
                if i3 < v.len() && v[i3] == ':' {
                    let n0 = sp(v, i3 + 1);
                    let n1 = ident_end(v, n0);
                    if n1 > n0 && is_ident_start_char(v[n0]) && sp(v, n1) == v.len() {
                        Some(
                            DirectiveView::NameOv {
                                owner: v.subrange(i0, e1),
                                member: Some(v.subrange(i2, e2)),
                                new_name: v.subrange(n0, n1),
                            },
                        )
                    } else {
                        None
                    }
                } else {
                    None
                }
            }
        } else {
            None
        }
    }
}

/// The recognized option keys.
pub open spec fn recognized_key(k: Seq<char>) -> bool {
    ||| k == "batch"@
    ||| k == "exclude_lambda_handler"@
    ||| k == "only_lambda_handler"@
    ||| k == "exclude_appsync_types"@
    ||| k == "only_appsync_types"@
    ||| k == "exclude_appsync_operations"@
    ||| k == "only_appsync_operations"@
    ||| k == "hook"@
    ||| k == "type_override"@
    ||| k == "field_type_override"@
    ||| k == "name_override"@
}

/// Classifies an option directive `key = v`: an unrecognized key fails with
/// exactly that key; a recognized key parses its value by its own grammar.
pub open spec fn option_outcome(key: Seq<char>, v: Seq<char>) -> ItemOutcome {
    if key == "batch"@ {
        match spec_bool_value(v) {
            Some(b) => ItemOutcome::Accepted(ItemView::Opt(DirectiveView::Batch(b))),
            None => ItemOutcome::Malformed,
        }
    } else if key == "exclude_lambda_handler"@ {
        match spec_bool_value(v) {
            Some(b) => ItemOutcome::Accepted(ItemView::Opt(DirectiveView::ExcludeLambdaHandler(b))),
            None => ItemOutcome::Malformed,
        }
    } else if key == "only_lambda_handler"@ {
        match spec_bool_value(v) {
            Some(b) => ItemOutcome::Accepted(ItemView::Opt(DirectiveView::OnlyLambdaHandler(b))),
            None => ItemOutcome::Malformed,
        }
    } else if key == "exclude_appsync_types"@ {
        match spec_bool_value(v) {
            Some(b) => ItemOutcome::Accepted(ItemView::Opt(DirectiveView::ExcludeAppsyncTypes(b))),
            None => ItemOutcome::Malformed,
        }
    } else if key == "only_appsync_types"@ {
        match spec_bool_value(v) {
            Some(b) => ItemOutcome::Accepted(ItemView::Opt(DirectiveView::OnlyAppsyncTypes(b))),
            None => ItemOutcome::Malformed,
        }
    } else if key == "exclude_appsync_operations"@ {
        match spec_bool_value(v) {
            Some(b) => ItemOutcome::Accepted(
                ItemView::Opt(DirectiveView::ExcludeAppsyncOperations(b)),
            ),
            None => ItemOutcome::Malformed,
        }
    } else if key == "only_appsync_operations"@ {
        match spec_bool_value(v) {
            Some(b) => ItemOutcome::Accepted(
                ItemView::Opt(DirectiveView::OnlyAppsyncOperations(b)),
            ),
            None => ItemOutcome::Malformed,
        }
    } else if key == "hook"@ {
        match spec_ident_value(v) {
            Some(h) => ItemOutcome::Accepted(ItemView::Opt(DirectiveView::Hook(h))),
            None => ItemOutcome::Malformed,
        }
    } else if key == "type_override"@ || key == "field_type_override"@ {
        match spec_type_override(v) {
            Some(d) => ItemOutcome::Accepted(ItemView::Opt(d)),
            None => ItemOutcome::Malformed,
        }
    } else if key == "name_override"@ {
        match spec_name_override(v) {
            Some(d) => ItemOutcome::Accepted(ItemView::Opt(d)),
            None => ItemOutcome::Malformed,
        }
    } else {
        ItemOutcome::UnknownOption(key)
    }
}

/// An unrecognized key fails, and the failure names exactly that key,
/// whatever the value reads.
pub proof fn lemma_unknown_key_is_named(key: Seq<char>, v: Seq<char>)
    requires
        !recognized_key(key),
    ensures
        option_outcome(key, v) == ItemOutcome::UnknownOption(key),
{
}

/// Classifies one argument-list item: `identifier = value` is an option
/// directive, `identifier() -> Type` is a client declaration, and anything
/// else is an unknown argument.
pub open spec fn item_outcome(s: Seq<char>) -> ItemOutcome {
    let i = sp(s, 0);
    let e = ident_end(s, i);
    if e == i || !is_ident_start_char(s[i]) {
        ItemOutcome::UnknownArgument
    } else {
        let key = s.subrange(i, e);
        let j = sp(s, e);
        if j < s.len() && s[j] == '=' {
            option_outcome(key, s.subrange(j + 1, s.len() as int))
        } else if j < s.len() && s[j] == '(' {
            let k = sp(s, j + 1);
            if k < s.len() && s[k] == ')' {
                let l = sp(s, k + 1);
                if l + 1 < s.len() && s[l] == '-' && s[l + 1] == '>' {
                    let t0 = sp(s, l + 2);
                    let t1 = rtrim_idx(s);
                    if t0 < t1 {
                        ItemOutcome::Accepted(
                            ItemView::Client { fct: key, client_type: s.subrange(t0, t1) },
                        )
                    } else {
                        ItemOutcome::UnknownArgument
                    }
                } else {
                    ItemOutcome::UnknownArgument
                }
            } else {
                ItemOutcome::UnknownArgument
            }
        } else {
            ItemOutcome::UnknownArgument
        }
    }
}

/// The executable result matches the specified outcome, error for error.
pub open spec fn outcome_matches(r: Result<ParsedItem, GenError>, o: ItemOutcome) -> bool {
    match r {
        Ok(it) => o == ItemOutcome::Accepted(it@),
        Err(e) => match e {
            GenError::UnknownOption { key } => o == ItemOutcome::UnknownOption(key@),
            GenError::UnknownArgument => o == ItemOutcome::UnknownArgument,
            GenError::MalformedOverrideSyntax => o == ItemOutcome::Malformed,
            _ => false,
        },
    }
}

/// Parses a boolean option value.
fn parse_bool_value(v: &str) -> (r: Option<bool>)
    ensures
        r == spec_bool_value(v@),
{
    let i0 = skip_spaces(v, 0);
    let e = scan_ident_end(v, i0);
    if e > i0 && skip_spaces(v, e) == v.unicode_len() {
        let w = v.substring_char(i0, e);
        if str_eq(w, "true") {
            Some(true)
        } else if str_eq(w, "false") {
            Some(false)
        } else {
            None
        }
    } else {
        None
    }
}

/// Parses an identifier option value.
fn parse_ident_value(v: &str) -> (r: Option<String>)
    ensures
        match r {
            Some(h) => spec_ident_value(v@) == Some(h@),
            None => spec_ident_value(v@) is None,
        },
{
    let i0 = skip_spaces(v, 0);
    let e = scan_ident_end(v, i0);
    if e > i0 && is_ident_start(v.get_char(i0)) && skip_spaces(v, e) == v.unicode_len() {
        Some(v.substring_char(i0, e).to_owned())
    } else {
        None
    }
}

/// Decides whether a character may start an identifier.
fn is_ident_start(c: char) -> (r: bool)
    ensures
        r == is_ident_start_char(c),
{
    let n = c as u32;
    (97 <= n && n <= 122) || (65 <= n && n <= 90) || c == '_'
}

/// Parses a `type_override` value.
fn parse_type_override(v: &str) -> (r: Option<TypeOverride>)
    ensures
        match r {
            Some(to) => spec_type_override(v@) == Some(to@),
            None => spec_type_override(v@) is None,
        },
{
    let n = v.unicode_len();
    let i0 = skip_spaces(v, 0);
    let e1 = scan_ident_end(v, i0);
    if e1 == i0 || !is_ident_start(v.get_char(i0)) {
        return None;
    }
    let i1 = skip_spaces(v, e1);
    if i1 >= n || v.get_char(i1) != '.' {
        return None;
    }
    let i2 = skip_spaces(v, i1 + 1);
    let e2 = scan_ident_end(v, i2);
    if e2 == i2 || !is_ident_start(v.get_char(i2)) {
        return None;
    }
    let i3 = skip_spaces(v, e2);
    if i3 < n && v.get_char(i3) == ':' {
        let t0 = skip_spaces(v, i3 + 1);
        let t1 = rtrim_pos(v);
        if t0 < t1 {
            Some(
                TypeOverride {
                    owner_name: v.substring_char(i0, e1).to_owned(),
                    field_name: v.substring_char(i2, e2).to_owned(),
                    arg_name: None,
                    new_type: v.substring_char(t0, t1).to_owned(),
                },
            )
        } else {
            None
        }
    } else if i3 < n && v.get_char(i3) == '.' {
        let i4 = skip_spaces(v, i3 + 1);
        let e3 = scan_ident_end(v, i4);
        if e3 == i4 || !is_ident_start(v.get_char(i4)) {
            return None;
        }
        let i5 = skip_spaces(v, e3);
        if i5 < n && v.get_char(i5) == ':' {
            let t0 = skip_spaces(v, i5 + 1);
            let t1 = rtrim_pos(v);
            if t0 < t1 {
                Some(
                    TypeOverride {
                        owner_name: v.substring_char(i0, e1).to_owned(),
                        field_name: v.substring_char(i2, e2).to_owned(),
                        arg_name: Some(v.substring_char(i4, e3).to_owned()),
                        new_type: v.substring_char(t0, t1).to_owned(),
                    },
                )
            } else {
                None
            }
        } else {
            None
        }
    } else {
        None
    }
}

/// Parses a `name_override` value.
fn parse_name_override(v: &str) -> (r: Option<NameOverride>)
    ensures
        match r {
            Some(no) => spec_name_override(v@) == Some(no@),
            None => spec_name_override(v@) is None,
        },
{
    let n = v.unicode_len();
    let i0 = skip_spaces(v, 0);
    let e1 = scan_ident_end(v, i0);
    if e1 == i0 || !is_ident_start(v.get_char(i0)) {
        return None;
    }
    let i1 = skip_spaces(v, e1);
    if i1 < n && v.get_char(i1) == ':' {
        let n0 = skip_spaces(v, i1 + 1);
        let n1 = scan_ident_end(v, n0);
        if n1 > n0 && is_ident_start(v.get_char(n0)) && skip_spaces(v, n1) == n {
            Some(
                NameOverride {
                    owner_name: v.substring_char(i0, e1).to_owned(),
                    member_name: None,
                    new_name: v.substring_char(n0, n1).to_owned(),
                },
            )
        } else {
            None
        }
    } else if i1 < n && v.get_char(i1) == '.' {
        let i2 = skip_spaces(v, i1 + 1);
        let e2 = scan_ident_end(v, i2);
        if e2 == i2 || !is_ident_start(v.get_char(i2)) {
            return None;
        }
        let i3 = skip_spaces(v, e2);
        if i3 < n && v.get_char(i3) == ':' {
            let n0 = skip_spaces(v, i3 + 1);
            let n1 = scan_ident_end(v, n0);
            if n1 > n0 && is_ident_start(v.get_char(n0)) && skip_spaces(v, n1) == n {
                Some(
                    NameOverride {
                        owner_name: v.substring_char(i0, e1).to_owned(),
                        member_name: Some(v.substring_char(i2, e2).to_owned()),
                        new_name: v.substring_char(n0, n1).to_owned(),
                    },
                )
            } else {
                None
            }
        } else {
            None
        }
    } else {
        None
    }
}

/// Classifies an option directive from its key and value texts.
fn classify_option(key: &str, v: &str) -> (r: Result<OptionalParameter, GenError>)
    ensures
        match r {
            Ok(p) => option_outcome(key@, v@) == ItemOutcome::Accepted(ItemView::Opt(p@)),
            Err(e) => match e {
                GenError::UnknownOption { key: k } => option_outcome(key@, v@)
                    == ItemOutcome::UnknownOption(k@) && k@ == key@,
                GenError::MalformedOverrideSyntax => option_outcome(key@, v@)
                    == ItemOutcome::Malformed,
                _ => false,
            },
        },
{
    if str_eq(key, "batch") {
        match parse_bool_value(v) {
            Some(b) => Ok(OptionalParameter::Batch(b)),
            None => Err(GenError::MalformedOverrideSyntax),
        }
    } else if str_eq(key, "exclude_lambda_handler") {
        match parse_bool_value(v) {
            Some(b) => Ok(OptionalParameter::ExcludeLambdaHandler(b)),
            None => Err(GenError::MalformedOverrideSyntax),
        }
    } else if str_eq(key, "only_lambda_handler") {
        match parse_bool_value(v) {
            Some(b) => Ok(OptionalParameter::OnlyLambdaHandler(b)),
            None => Err(GenError::MalformedOverrideSyntax),
        }
    } else if str_eq(key, "exclude_appsync_types") {
        match parse_bool_value(v) {
            Some(b) => Ok(OptionalParameter::ExcludeAppsyncTypes(b)),
            None => Err(GenError::MalformedOverrideSyntax),
        }
    } else if str_eq(key, "only_appsync_types") {
        match parse_bool_value(v) {
            Some(b) => Ok(OptionalParameter::OnlyAppsyncTypes(b)),
            None => Err(GenError::MalformedOverrideSyntax),
        }
    } else if str_eq(key, "exclude_appsync_operations") {
        match parse_bool_value(v) {
            Some(b) => Ok(OptionalParameter::ExcludeAppsyncOperations(b)),
            None => Err(GenError::MalformedOverrideSyntax),
        }
    } else if str_eq(key, "only_appsync_operations") {
        match parse_bool_value(v) {
            Some(b) => Ok(OptionalParameter::OnlyAppsyncOperations(b)),
            None => Err(GenError::MalformedOverrideSyntax),
        }
    } else if str_eq(key, "hook") {
        match parse_ident_value(v) {
            Some(h) => Ok(OptionalParameter::Hook(h)),
            None => Err(GenError::MalformedOverrideSyntax),
        }
    } else if str_eq(key, "type_override") || str_eq(key, "field_type_override") {
        match parse_type_override(v) {
            Some(to) => Ok(OptionalParameter::TypeOv(to)),
            None => Err(GenError::MalformedOverrideSyntax),
        }
    } else if str_eq(key, "name_override") {
        match parse_name_override(v) {
            Some(no) => Ok(OptionalParameter::NameOv(no)),
            None => Err(GenError::MalformedOverrideSyntax),
        }
    } else {
        Err(GenError::UnknownOption { key: key.to_owned() })
    }
}

/// Classifies one argument-list item.
pub fn classify_item(s: &str) -> (r: Result<ParsedItem, GenError>)
    ensures
        outcome_matches(r, item_outcome(s@)),
{
    let n = v_len(s);
    let i = skip_spaces(s, 0);
    let e = scan_ident_end(s, i);
    if e == i || !is_ident_start(s.get_char(i)) {
        return Err(GenError::UnknownArgument);
    }
    let j = skip_spaces(s, e);
    if j < n && s.get_char(j) == '=' {
        let key = s.substring_char(i, e);
        let v = s.substring_char(j + 1, n);
        match classify_option(key, v) {
            Ok(p) => Ok(ParsedItem::Opt(p)),
            Err(e) => Err(e),
        }
    } else if j < n && s.get_char(j) == '(' {
        let k = skip_spaces(s, j + 1);
        if k < n && s.get_char(k) == ')' {
            let l = skip_spaces(s, k + 1);
            if l < n && s.get_char(l) == '-' && l + 1 < n && s.get_char(l + 1) == '>' {
                let t0 = skip_spaces(s, l + 2);
                let t1 = rtrim_pos(s);
                if t0 < t1 {
                    Ok(
                        ParsedItem::Client(
                            ClientSpec {
                                fct_name: s.substring_char(i, e).to_owned(),
                                client_type: s.substring_char(t0, t1).to_owned(),
                            },
                        ),
                    )
                } else {
                    Err(GenError::UnknownArgument)
                }
            } else {
                Err(GenError::UnknownArgument)
            }
        } else {
            Err(GenError::UnknownArgument)
        }
    } else {
        Err(GenError::UnknownArgument)
    }
}

/// Character length of a string.
fn v_len(s: &str) -> (r: usize)
    ensures
        r == s@.len(),
{
    s.unicode_len()
}

} // verus!
