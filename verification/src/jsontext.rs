//! Filter values and their wire text: the scalar values a subscription filter
//! may carry, and a verified emitter for the JSON text they serialize to.
use vstd::prelude::*;
use vstd::string::{StrSliceExecFns, StringExecFns};

verus! {

/// A scalar filter value.
#[derive(Debug)]
pub enum ScalarValue {
    /// A boolean (equality operators only).
    Bool(bool),
    /// An unsigned number.
    UInt(u64),
    /// A signed number.
    Int(i64),
    /// A string.
    Str(String),
}

/// The mathematical shape of a scalar filter value.
pub ghost enum ScalarView {
    /// A boolean.
    Bool(bool),
    /// An unsigned number.
    UInt(u64),
    /// A signed number.
    Int(i64),
    /// A string, as its characters.
    Str(Seq<char>),
}

impl View for ScalarValue {
    type V = ScalarView;

    open spec fn view(&self) -> ScalarView {
        match self {
            ScalarValue::Bool(b) => ScalarView::Bool(*b),
            ScalarValue::UInt(n) => ScalarView::UInt(*n),
            ScalarValue::Int(n) => ScalarView::Int(*n),
            ScalarValue::Str(s) => ScalarView::Str(s@),
        }
    }
}

/// The views of a sequence of scalar values.
pub open spec fn scalars_view(v: Seq<ScalarValue>) -> Seq<ScalarView> {
    v.map_values(|x: ScalarValue| x@)
}

/// A filter value: one scalar, or one flat array of scalars (for the range
/// and membership operators).
#[derive(Debug)]
pub enum FilterValue {
    /// One scalar.
    Scalar(ScalarValue),
    /// A flat array of scalars.
    Arr(Vec<ScalarValue>),
}

/// The mathematical shape of a filter value.
pub ghost enum ValueView {
    /// One scalar.
    Scalar(ScalarView),
    /// A flat array of scalars.
    Arr(Seq<ScalarView>),
}

impl View for FilterValue {
    type V = ValueView;

    open spec fn view(&self) -> ValueView {
        match self {
            FilterValue::Scalar(v) => ValueView::Scalar(v@),
            FilterValue::Arr(vs) => ValueView::Arr(scalars_view(vs@)),
        }
    }
}

/// How one character appears inside a JSON string: quote, backslash and the
/// common control characters are escaped, every other character stands as
/// itself.
pub open spec fn escape_char(c: char) -> Seq<char> {
    if c == '"' {
        seq!['\\', '"']
    } else if c == '\\' {
        seq!['\\', '\\']
    } else if c == '\n' {
        seq!['\\', 'n']
    } else if c == '\r' {
        seq!['\\', 'r']
    } else if c == '\t' {
        seq!['\\', 't']
    } else {
        seq![c]
    }
}

/// The escaped body of a JSON string.
pub open spec fn escaped(s: Seq<char>) -> Seq<char>
    decreases s.len(),
{
    if s.len() == 0 {
        Seq::empty()
    } else {
        escape_char(s[0]) + escaped(s.drop_first())
    }
}

/// The decimal digit characters.
pub open spec fn digit_char(d: int) -> char {
    if d == 0 {
        '0'
    } else if d == 1 {
        '1'
    } else if d == 2 {
        '2'
    } else if d == 3 {
        '3'
    } else if d == 4 {
        '4'
    } else if d == 5 {
        '5'
    } else if d == 6 {
        '6'
    } else if d == 7 {
        '7'
    } else if d == 8 {
        '8'
    } else {
        '9'
    }
}

/// The decimal text of an unsigned number.
pub open spec fn u64_digits(n: nat) -> Seq<char>
    decreases n,
{
    if n < 10 {
        seq![digit_char(n as int)]
    } else {
        u64_digits(n / 10).push(digit_char((n % 10) as int))
    }
}

/// The decimal text of a signed number.
pub open spec fn i64_text(n: int) -> Seq<char> {
    if n < 0 {
        seq!['-'] + u64_digits((-n) as nat)
    } else {
        u64_digits(n as nat)
    }
}

/// The JSON text of one scalar.
pub open spec fn scalar_json(v: ScalarView) -> Seq<char> {
    match v {
        ScalarView::Bool(b) => if b {
            "true"@
        } else {
            "false"@
        },
        ScalarView::UInt(n) => u64_digits(n as nat),
        ScalarView::Int(n) => i64_text(n as int),
        ScalarView::Str(s) => seq!['"'] + escaped(s) + seq!['"'],
    }
}

/// The comma-joined JSON texts of an array's elements.
pub open spec fn scalars_inner_json(vs: Seq<ScalarView>) -> Seq<char>
    decreases vs.len(),
{
    if vs.len() == 0 {
        Seq::empty()
    } else if vs.len() == 1 {
        scalar_json(vs[0])
    } else {
        scalar_json(vs[0]) + seq![','] + scalars_inner_json(vs.drop_first())
    }
}

/// The JSON text of a filter value.
pub open spec fn value_json(v: ValueView) -> Seq<char> {
    match v {
        ValueView::Scalar(sv) => scalar_json(sv),
        ValueView::Arr(vs) => seq!['['] + scalars_inner_json(vs) + seq![']'],
    }
}

/// Appends one decimal digit character.
fn push_digit(out: &mut String, d: u64)
    requires
        d < 10,
    ensures
        final(out)@ == old(out)@.push(digit_char(d as int)),
{
    if d == 0 {
        out.push('0');
    } else if d == 1 {
        out.push('1');
    } else if d == 2 {
        out.push('2');
    } else if d == 3 {
        out.push('3');
    } else if d == 4 {
        out.push('4');
    } else if d == 5 {
        out.push('5');
    } else if d == 6 {
        out.push('6');
    } else if d == 7 {
        out.push('7');
    } else if d == 8 {
        out.push('8');
    } else {
        out.push('9');
    }
}

/// Appends the decimal text of an unsigned number.
pub fn push_u64(out: &mut String, n: u64)
    ensures
        final(out)@ == old(out)@ + u64_digits(n as nat),
    decreases n,
{
    if n < 10 {
        push_digit(out, n);
        proof {
            assert(final(out)@ =~= old(out)@ + u64_digits(n as nat));
        }
    } else {
        push_u64(out, n / 10);
        push_digit(out, n % 10);
        proof {
            assert(final(out)@ =~= old(out)@ + u64_digits(n as nat));
        }
    }
}

/// Appends the decimal text of a signed number.
pub fn push_i64(out: &mut String, n: i64)
    ensures
        final(out)@ == old(out)@ + i64_text(n as int),
{
    if n >= 0 {
        push_u64(out, n as u64);
    } else {
        out.push('-');
        let mag: u64 = ((-(n + 1)) as u64) + 1;
        proof {
            assert(mag as nat == (-(n as int)) as nat);
        }
        push_u64(out, mag);
        proof {
            assert(final(out)@ =~= old(out)@ + i64_text(n as int));
        }
    }
}

/// Appends the escaped body of a JSON string.
pub fn push_escaped(out: &mut String, s: &str)
    ensures
        final(out)@ == old(out)@ + escaped(s@),
{
    let n = s.unicode_len();
    let ghost base = out@;
    let mut i: usize = 0;
    proof {
        assert(s@.skip(0) =~= s@);
    }
    while i < n
        invariant
            i <= n,
            n == s@.len(),
            out@ + escaped(s@.skip(i as int)) == base + escaped(s@),
        decreases n - i,
    {
        let ghost pre = out@;
        let c = s.get_char(i);
        if c == '"' {
            out.push('\\');
            out.push('"');
        } else if c == '\\' {
            out.push('\\');
            out.push('\\');
        } else if c == '\n' {
            out.push('\\');
            out.push('n');
        } else if c == '\r' {
            out.push('\\');
            out.push('r');
        } else if c == '\t' {
            out.push('\\');
            out.push('t');
        } else {
            out.push(c);
        }
        proof {
            assert(out@ =~= pre + escape_char(c));
            assert(s@.skip(i as int).drop_first() =~= s@.skip(i as int + 1));
            assert(out@ + escaped(s@.skip(i as int + 1)) =~= pre + escaped(s@.skip(i as int)));
        }
        i = i + 1;
    }
    proof {
        assert(escaped(s@.skip(n as int)) =~= Seq::<char>::empty());
        assert(out@ =~= base + escaped(s@));
    }
}

/// Appends the JSON text of one scalar.
pub fn push_scalar(out: &mut String, v: &ScalarValue)
    ensures
        final(out)@ == old(out)@ + scalar_json(v@),
{
    match v {
        ScalarValue::Bool(b) => {
            if *b {
                out.append("true");
            } else {
                out.append("false");
            }
        },
        ScalarValue::UInt(n) => {
            push_u64(out, *n);
        },
        ScalarValue::Int(n) => {
            push_i64(out, *n);
        },
        ScalarValue::Str(s) => {
            let ghost base = out@;
            out.push('"');
            push_escaped(out, s.as_str());
            out.push('"');
            proof {
                assert(out@ =~= base + scalar_json(v@));
            }
        },
    }
}

/// Appends the comma-joined JSON texts of the array elements from `i` on.
pub fn push_scalars_inner(out: &mut String, vals: &Vec<ScalarValue>, i: usize)
    requires
        i <= vals@.len(),
    ensures
        final(out)@ == old(out)@ + scalars_inner_json(scalars_view(vals@).skip(i as int)),
    decreases vals@.len() - i,
{
    let n = vals.len();
    if i >= n {
        proof {
            assert(scalars_view(vals@).skip(i as int) =~= Seq::<ScalarView>::empty());
        }
    } else if i == n - 1 {
        push_scalar(out, &vals[i]);
        proof {
            let tail = scalars_view(vals@).skip(i as int);
            assert(tail.len() == 1);
            assert(tail[0] == vals@[i as int]@);
            assert(final(out)@ =~= old(out)@ + scalars_inner_json(tail));
        }
    } else {
        let ghost base = out@;
        push_scalar(out, &vals[i]);
        out.push(',');
        push_scalars_inner(out, vals, i + 1);
        proof {
            let tail = scalars_view(vals@).skip(i as int);
            assert(tail.len() >= 2);
            assert(tail[0] == vals@[i as int]@);
            assert(tail.drop_first() =~= scalars_view(vals@).skip(i as int + 1));
            assert(out@ =~= base + scalars_inner_json(tail));
        }
    }
}

/// Appends the JSON text of a filter value.
pub fn push_value(out: &mut String, v: &FilterValue)
    ensures
        final(out)@ == old(out)@ + value_json(v@),
{
    match v {
        FilterValue::Scalar(sv) => {
            push_scalar(out, sv);
        },
        FilterValue::Arr(vs) => {
            let ghost base = out@;
            out.push('[');
            push_scalars_inner(out, vs, 0);
            out.push(']');
            proof {
                assert(scalars_view(vs@).skip(0) =~= scalars_view(vs@));
                assert(out@ =~= base + value_json(v@));
            }
        },
    }
}

} // verus!
