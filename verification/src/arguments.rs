//! The whole argument list of a generation run: a quoted schema path followed
//! by comma-separated directives and client declarations.
//!
//! The splitter respects string literals and bracket nesting (so a replacement
//! type may contain commas, as in a generic type), the first item must be the
//! quoted schema path, every further item is classified by the directive
//! parser, directives are folded left to right into the configuration, and
//! client accessor names must be pairwise distinct.
use crate::directives::{classify_item, ClientSpec, ItemOutcome, ItemView, ParsedItem};
use crate::errors::GenError;
use crate::options::{
    apply_directive,
    initial_config,
    ConfigView,
    OptionalParameters,
};
use crate::strutil::{skip_spaces, sp, str_eq};
use vstd::prelude::*;
use vstd::string::StrSliceExecFns;

verus! {

/// The views of a sequence of strings.
pub open spec fn strings_view(v: Seq<String>) -> Seq<Seq<char>> {
    v.map_values(|x: String| x@)
}

/// The views of a sequence of client declarations: (accessor name, type text).
pub open spec fn clients_pairs(v: Seq<ClientSpec>) -> Seq<(Seq<char>, Seq<char>)> {
    v.map_values(|c: ClientSpec| (c.fct_name@, c.client_type@))
}

/// Splits the input at commas that stand outside any string literal and
/// outside any bracket nesting, walking the characters left to right. A `>`
/// preceded by `-` is an arrow, not a closing bracket.
pub open spec fn split_rec(
    s: Seq<char>,
    i: int,
    depth: int,
    in_str: bool,
    cur: Seq<char>,
    acc: Seq<Seq<char>>,
) -> Seq<Seq<char>>
    decreases s.len() - i,
{
    if !(0 <= i < s.len()) {
        acc.push(cur)
    } else {
        let c = s[i];
        if in_str {
            split_rec(s, i + 1, depth, c != '"', cur.push(c), acc)
        } else if c == '"' {
            split_rec(s, i + 1, depth, true, cur.push(c), acc)
        } else if c == ',' && depth == 0 {
            split_rec(s, i + 1, 0, false, Seq::empty(), acc.push(cur))
        } else if c == '(' || c == '[' || c == '{' || c == '<' {
            split_rec(s, i + 1, depth + 1, false, cur.push(c), acc)
        } else if (c == ')' || c == ']' || c == '}') && depth > 0 {
            split_rec(s, i + 1, depth - 1, false, cur.push(c), acc)
        } else if c == '>' && depth > 0 && !(i > 0 && s[i - 1] == '-') {
            split_rec(s, i + 1, depth - 1, false, cur.push(c), acc)
        } else {
            split_rec(s, i + 1, depth, false, cur.push(c), acc)
        }
    }
}

/// The items of the argument list.
pub open spec fn split_items(s: Seq<char>) -> Seq<Seq<char>> {
    split_rec(s, 0, 0, false, Seq::empty(), Seq::empty())
}

/// Splitting always yields more items than were accumulated, so the item list
/// is never empty.
pub proof fn lemma_split_rec_len(
    s: Seq<char>,
    i: int,
    depth: int,
    in_str: bool,
    cur: Seq<char>,
    acc: Seq<Seq<char>>,
)
    ensures
        split_rec(s, i, depth, in_str, cur, acc).len() > acc.len(),
    decreases s.len() - i,
{
    if 0 <= i < s.len() {
        let c = s[i];
        if in_str {
            lemma_split_rec_len(s, i + 1, depth, c != '"', cur.push(c), acc);
        } else if c == '"' {
            lemma_split_rec_len(s, i + 1, depth, true, cur.push(c), acc);
        } else if c == ',' && depth == 0 {
            lemma_split_rec_len(s, i + 1, 0, false, Seq::empty(), acc.push(cur));
        } else if c == '(' || c == '[' || c == '{' || c == '<' {
            lemma_split_rec_len(s, i + 1, depth + 1, false, cur.push(c), acc);
        } else if (c == ')' || c == ']' || c == '}') && depth > 0 {
            lemma_split_rec_len(s, i + 1, depth - 1, false, cur.push(c), acc);
        } else if c == '>' && depth > 0 && !(i > 0 && s[i - 1] == '-') {
            lemma_split_rec_len(s, i + 1, depth - 1, false, cur.push(c), acc);
        } else {
            lemma_split_rec_len(s, i + 1, depth, false, cur.push(c), acc);
        }
    }
}

/// Splits the argument list into its top-level items.
pub fn split_arguments(input: &str) -> (r: Vec<String>)
    ensures
        strings_view(r@) == split_items(input@),
        r@.len() >= 1,
{
    let n = input.unicode_len();
    let mut acc: Vec<String> = Vec::new();
    let mut cur = String::new();
    let mut depth: usize = 0;
    let mut in_str = false;
    let mut i: usize = 0;
    proof {
        assert(strings_view(acc@) =~= Seq::<Seq<char>>::empty());
    }
    while i < n
        invariant
            i <= n,
            n == input@.len(),
            depth <= i,
            split_items(input@) == split_rec(
                input@,
                i as int,
                depth as int,
                in_str,
                cur@,
                strings_view(acc@),
            ),
        decreases n - i,
    {
        let c = input.get_char(i);
        if in_str {
            cur.push(c);
            in_str = c != '"';
        } else if c == '"' {
            cur.push(c);
            in_str = true;
        } else if c == ',' && depth == 0 {
            let ghost accv = strings_view(acc@);
            let ghost curv = cur@;
            acc.push(cur);
            cur = String::new();
            proof {
                assert(strings_view(acc@) =~= accv.push(curv));
            }
        } else if c == '(' || c == '[' || c == '{' || c == '<' {
            depth = depth + 1;
            cur.push(c);
        } else if (c == ')' || c == ']' || c == '}') && depth > 0 {
            depth = depth - 1;
            cur.push(c);
        } else if c == '>' && depth > 0 && !(i > 0 && input.get_char(i - 1) == '-') {
            depth = depth - 1;
            cur.push(c);
        } else {
            cur.push(c);
        }
        i = i + 1;
    }
    let ghost accv = strings_view(acc@);
    let ghost curv = cur@;
    proof {
        lemma_split_rec_len(input@, i as int, depth as int, in_str, cur@, strings_view(acc@));
    }
    acc.push(cur);
    proof {
        assert(strings_view(acc@) =~= accv.push(curv));
    }
    acc
}

/// The first position at or after `i` holding a double quote (the length if
/// there is none).
pub open spec fn quote_end(s: Seq<char>, i: int) -> int
    decreases s.len() - i,
{
    if 0 <= i < s.len() && s[i] != '"' {
        quote_end(s, i + 1)
    } else {
        i
    }
}

/// Parses the schema path item: a double-quoted text surrounded by spaces
/// only, holding no quote and no backslash.
pub open spec fn spec_path_item(s: Seq<char>) -> Option<Seq<char>> {
    let i0 = sp(s, 0);
    if i0 < s.len() && s[i0] == '"' {
        let q = quote_end(s, i0 + 1);
        if q < s.len() && sp(s, q + 1) == s.len() {
            let content = s.subrange(i0 + 1, q);
            if content.contains('\\') {
                None
            } else {
                Some(content)
            }
        } else {
            None
        }
    } else {
        None
    }
}

/// Returns the first position at or after `i` holding a double quote.
fn scan_quote_end(s: &str, i: usize) -> (r: usize)
    requires
        i <= s@.len(),
    ensures
        r == quote_end(s@, i as int),
        i <= r <= s@.len(),
{
    let n = s.unicode_len();
    let mut j = i;
    while j < n && s.get_char(j) != '"'
        invariant
            i <= j <= n,
            n == s@.len(),
            quote_end(s@, i as int) == quote_end(s@, j as int),
        decreases n - j,
    {
        j = j + 1;
    }
    j
}

/// Parses the schema path item.
pub fn parse_path_item(s: &str) -> (r: Option<String>)
    ensures
        match r {
            Some(p) => spec_path_item(s@) == Some(p@),
            None => spec_path_item(s@) is None,
        },
{
    let n = s.unicode_len();
    let i0 = skip_spaces(s, 0);
    if i0 < n && s.get_char(i0) == '"' {
        let q = scan_quote_end(s, i0 + 1);
        if q < n && skip_spaces(s, q + 1) == n {
            let mut j = i0 + 1;
            while j < q
                invariant
                    i0 + 1 <= j <= q,
                    q < n,
                    n == s@.len(),
                    i0 == sp(s@, 0),
                    s@[i0 as int] == '"',
                    q == quote_end(s@, i0 as int + 1),
                    sp(s@, q as int + 1) == n,
                    forall|k: int| i0 + 1 <= k < j ==> s@[k] != '\\',
                decreases q - j,
            {
                if s.get_char(j) == '\\' {
                    proof {
                        let content = s@.subrange(i0 + 1, q as int);
                        assert(content.contains('\\')) by {
                            assert(content[j - i0 - 1] == '\\');
                        }
                    }
                    return None;
                }
                j = j + 1;
            }
            proof {
                assert(!s@.subrange(i0 + 1, q as int).contains('\\')) by {
                    let content = s@.subrange(i0 + 1, q as int);
                    assert(forall|k: int|
                        0 <= k < content.len() ==> content[k] == s@[i0 + 1 + k]);
                }
            }
            Some(s.substring_char(i0 + 1, q).to_owned())
        } else {
            None
        }
    } else {
        None
    }
}

/// The parsed argument list: the schema path, the resolved configuration and
/// the declared clients, in declaration order.
#[derive(Debug)]
pub struct MacroArgs {
    /// The schema file path.
    pub schema_path: String,
    /// The configuration after folding every directive.
    pub options: OptionalParameters,
    /// The declared client accessors.
    pub clients: Vec<ClientSpec>,
}

/// The mathematical shape of a parsed argument list.
pub ghost struct MacroArgsView {
    /// The schema file path.
    pub schema_path: Seq<char>,
    /// The resolved configuration.
    pub config: ConfigView,
    /// The declared clients: (accessor name, type text).
    pub clients: Seq<(Seq<char>, Seq<char>)>,
}

impl View for MacroArgs {
    type V = MacroArgsView;

    open spec fn view(&self) -> MacroArgsView {
        MacroArgsView {
            schema_path: self.schema_path@,
            config: self.options@,
            clients: clients_pairs(self.clients@),
        }
    }
}

/// No two client accessors share one name.
pub open spec fn clients_distinct(clients: Seq<(Seq<char>, Seq<char>)>) -> bool {
    forall|i: int, j: int| 0 <= i < j < clients.len() ==> clients[i].0 != clients[j].0
}

/// What parsing the whole argument list yields.
pub ghost enum MacroOutcome {
    /// The list parses to this value.
    Accepted(MacroArgsView),
    /// The first item is not a plain quoted path.
    BadPath,
    /// An item used an unrecognized option key; carries exactly that key.
    UnknownOption(Seq<char>),
    /// An item is neither an option directive nor a client declaration.
    UnknownArgument,
    /// A recognized key carries a value that does not match its grammar.
    Malformed,
    /// Two client accessors share one name.
    DuplicateClient,
}

/// Folds the items after the path into the configuration and client list,
/// left to right, stopping at the first failing item. A final all-space item
/// (a trailing comma) is allowed and skipped.
pub open spec fn items_fold(
    items: Seq<Seq<char>>,
    i: int,
    c: ConfigView,
    clients: Seq<(Seq<char>, Seq<char>)>,
    path: Seq<char>,
) -> MacroOutcome
    decreases items.len() - i,
{
    if !(0 <= i < items.len()) {
        if clients_distinct(clients) {
            MacroOutcome::Accepted(MacroArgsView { schema_path: path, config: c, clients })
        } else {
            MacroOutcome::DuplicateClient
        }
    } else if sp(items[i], 0) == items[i].len() && i == items.len() - 1 {
        items_fold(items, i + 1, c, clients, path)
    } else {
        match crate::directives::item_outcome(items[i]) {
            ItemOutcome::Accepted(ItemView::Opt(d)) => items_fold(
                items,
                i + 1,
                apply_directive(c, d),
                clients,
                path,
            ),
            ItemOutcome::Accepted(ItemView::Client { fct, client_type }) => items_fold(
                items,
                i + 1,
                c,
                clients.push((fct, client_type)),
                path,
            ),
            ItemOutcome::UnknownOption(k) => MacroOutcome::UnknownOption(k),
            ItemOutcome::UnknownArgument => MacroOutcome::UnknownArgument,
            ItemOutcome::Malformed => MacroOutcome::Malformed,
        }
    }
}

/// What parsing the whole argument list yields: the first item as the schema
/// path, then the fold of the remaining items from the initial configuration.
pub open spec fn macro_outcome(input: Seq<char>) -> MacroOutcome {
    let items = split_items(input);
    match spec_path_item(items[0]) {
        None => MacroOutcome::BadPath,
        Some(p) => items_fold(items, 1, initial_config(), Seq::empty(), p),
    }
}

/// The executable result matches the specified outcome, error for error.
pub open spec fn macro_matches(r: Result<MacroArgs, GenError>, o: MacroOutcome) -> bool {
    match r {
        Ok(m) => o == MacroOutcome::Accepted(m@),
        Err(e) => match e {
            GenError::MalformedSchemaPath => o == MacroOutcome::BadPath,
            GenError::UnknownOption { key } => o == MacroOutcome::UnknownOption(key@),
            GenError::UnknownArgument => o == MacroOutcome::UnknownArgument,
            GenError::MalformedOverrideSyntax => o == MacroOutcome::Malformed,
            GenError::MalformedClientSpec => o == MacroOutcome::DuplicateClient,
            _ => false,
        },
    }
}

/// Parses the whole argument list of a generation run.
pub fn parse_macro_args(input: &str) -> (r: Result<MacroArgs, GenError>)
    ensures
        macro_matches(r, macro_outcome(input@)),
{
    let items = split_arguments(input);
    let path = match parse_path_item(items[0].as_str()) {
        Some(p) => p,
        None => {
            return Err(GenError::MalformedSchemaPath);
        },
    };
    let mut options = OptionalParameters::default();
    let mut clients: Vec<ClientSpec> = Vec::new();
    let mut idx: usize = 1;
    proof {
        assert(clients_pairs(clients@) =~= Seq::<(Seq<char>, Seq<char>)>::empty());
    }
    while idx < items.len()
        invariant
            1 <= idx <= items@.len(),
            strings_view(items@) == split_items(input@),
            macro_outcome(input@) == items_fold(
                strings_view(items@),
                idx as int,
                options@,
                clients_pairs(clients@),
                path@,
            ),
        decreases items@.len() - idx,
    {
        proof {
            assert(strings_view(items@)[idx as int] == items@[idx as int]@);
        }
        let item = items[idx].as_str();
        let all_space = skip_spaces(item, 0) == item.unicode_len();
        if all_space && idx == items.len() - 1 {
            idx = idx + 1;
        } else {
            match classify_item(item) {
                Ok(ParsedItem::Opt(p)) => {
                    options.set(p);
                    idx = idx + 1;
                },
                Ok(ParsedItem::Client(c)) => {
                    let ghost cv = clients_pairs(clients@);
                    let ghost pair = (c.fct_name@, c.client_type@);
                    clients.push(c);
                    proof {
                        assert(clients_pairs(clients@) =~= cv.push(pair));
                    }
                    idx = idx + 1;
                },
                Err(e) => {
                    return Err(e);
                },
            }
        }
    }
    // check that client accessor names are pairwise distinct
    let m = clients.len();
    let mut i: usize = 0;
    while i < m
        invariant
            i <= m,
            m == clients@.len(),
            macro_outcome(input@) == items_fold(
                strings_view(items@),
                items@.len() as int,
                options@,
                clients_pairs(clients@),
                path@,
            ),
            forall|i1: int, j1: int|
                0 <= i1 < i && i1 < j1 < m ==> clients_pairs(clients@)[i1].0 != clients_pairs(
                    clients@,
                )[j1].0,
        decreases m - i,
    {
        let mut j = i + 1;
        while j < m
            invariant
                i < j <= m,
                i < m,
                m == clients@.len(),
                macro_outcome(input@) == items_fold(
                    strings_view(items@),
                    items@.len() as int,
                    options@,
                    clients_pairs(clients@),
                    path@,
                ),
                forall|j1: int|
                    i < j1 < j ==> clients_pairs(clients@)[i as int].0 != clients_pairs(
                        clients@,
                    )[j1].0,
            decreases m - j,
        {
            if str_eq(clients[i].fct_name.as_str(), clients[j].fct_name.as_str()) {
                proof {
                    assert(clients_pairs(clients@)[i as int].0 == clients_pairs(
                        clients@,
                    )[j as int].0);
                    assert(!clients_distinct(clients_pairs(clients@)));
                }
                return Err(GenError::MalformedClientSpec);
            }
            j = j + 1;
        }
        i = i + 1;
    }
    proof {
        assert(clients_distinct(clients_pairs(clients@)));
    }
    let r = MacroArgs { schema_path: path, options, clients };
    proof {
        assert(r@ =~= (MacroArgsView {
            schema_path: r.schema_path@,
            config: r.options@,
            clients: clients_pairs(r.clients@),
        }));
    }
    Ok(r)
}

} // verus!
