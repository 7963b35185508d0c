//! The subscription filter builder: validated field paths, bounded value
//! arrays, the closed operator set, and the exact wire text of a filter
//! group, `{"filterGroup":[{"filters":[{fieldName,operator,value},…]},…]}`.
use crate::errors::AppsyncError;
use crate::jsontext::{
    push_scalar,
    push_value,
    scalar_json,
    scalars_view,
    value_json,
    FilterValue,
    ScalarValue,
    ScalarView,
    ValueView,
};
use vstd::prelude::*;
use vstd::string::{StrSliceExecFns, StringExecFns};

verus! {

/// A field path into the event payload, validated to at most 256 characters.
#[derive(Debug, Clone)]
pub struct FieldPath {
    /// The dotted path text.
    pub path: String,
}

impl FieldPath {
    /// Creates a validated field path: construction succeeds exactly when the
    /// path has at most 256 characters.
    pub fn new(path: &str) -> (r: Result<FieldPath, AppsyncError>)
        ensures
            (path@.len() <= 256) <==> (r is Ok),
            r matches Ok(p) ==> p.path@ == path@,
            r matches Err(e) ==> e.error_type@ == "ValidationError"@ && e.error_message@
                == "Field path exceeds 256 characters"@,
    {
        if path.unicode_len() > 256 {
            Err(AppsyncError::new("ValidationError", "Field path exceeds 256 characters"))
        } else {
            Ok(FieldPath { path: path.to_owned() })
        }
    }

    /// The path text.
    pub fn text(&self) -> (r: &str)
        ensures
            r@ == self.path@,
    {
        self.path.as_str()
    }
}

/// A vector bounded to at most `N` elements, for the operators that cap their
/// value arrays.
#[derive(Debug)]
pub struct FixedVec<T, const N: usize> {
    /// The elements, at most `N` of them when built through `from_vec`.
    pub items: Vec<T>,
}

impl<T, const N: usize> FixedVec<T, N> {
    /// Builds a bounded vector: construction succeeds exactly when the input
    /// has at most `N` elements, and keeps them in order.
    pub fn from_vec(v: Vec<T>) -> (r: Option<FixedVec<T, N>>)
        ensures
            (v@.len() <= N) <==> (r is Some),
            r matches Some(fv) ==> fv.items@ == v@,
    {
        if v.len() <= N {
            Some(FixedVec { items: v })
        } else {
            None
        }
    }
}

/// Marker for types allowed in every filter value position.
pub trait Sealed {

}

/// Marker for the types the equality operators (`eq`, `ne`) accept: numbers,
/// strings and booleans.
pub trait IFSBValueMarker: Sealed {
    /// The mathematical scalar this value stands for.
    spec fn scalar_view(&self) -> ScalarView;

    /// Converts the value to its scalar.
    fn to_value(&self) -> (v: ScalarValue)
        ensures
            v@ == self.scalar_view(),
    ;
}

/// Marker for the types the ordering, containment and array operators accept:
/// numbers and strings (no booleans).
pub trait IFSValueMarker: Sealed {
    /// The mathematical scalar this value stands for.
    spec fn scalar_view(&self) -> ScalarView;

    /// Converts the value to its scalar.
    fn to_value(&self) -> (v: ScalarValue)
        ensures
            v@ == self.scalar_view(),
    ;
}

impl Sealed for bool {

}

impl IFSBValueMarker for bool {
    open spec fn scalar_view(&self) -> ScalarView {
        ScalarView::Bool(*self)
    }

    fn to_value(&self) -> (v: ScalarValue) {
        ScalarValue::Bool(*self)
    }
}

impl Sealed for u8 {

}

impl IFSBValueMarker for u8 {
    open spec fn scalar_view(&self) -> ScalarView {
        ScalarView::UInt(*self as u64)
    }

    fn to_value(&self) -> (v: ScalarValue) {
        ScalarValue::UInt(*self as u64)
    }
}

impl IFSValueMarker for u8 {
    open spec fn scalar_view(&self) -> ScalarView {
        ScalarView::UInt(*self as u64)
    }

    fn to_value(&self) -> (v: ScalarValue) {
        ScalarValue::UInt(*self as u64)
    }
}

impl Sealed for u16 {

}

impl IFSBValueMarker for u16 {
    open spec fn scalar_view(&self) -> ScalarView {
        ScalarView::UInt(*self as u64)
    }

    fn to_value(&self) -> (v: ScalarValue) {
        ScalarValue::UInt(*self as u64)
    }
}

impl IFSValueMarker for u16 {
    open spec fn scalar_view(&self) -> ScalarView {
        ScalarView::UInt(*self as u64)
    }

    fn to_value(&self) -> (v: ScalarValue) {
        ScalarValue::UInt(*self as u64)
    }
}

impl Sealed for u32 {

}

impl IFSBValueMarker for u32 {
    open spec fn scalar_view(&self) -> ScalarView {
        ScalarView::UInt(*self as u64)
    }

    fn to_value(&self) -> (v: ScalarValue) {
        ScalarValue::UInt(*self as u64)
    }
}

impl IFSValueMarker for u32 {
    open spec fn scalar_view(&self) -> ScalarView {
        ScalarView::UInt(*self as u64)
    }

    fn to_value(&self) -> (v: ScalarValue) {
        ScalarValue::UInt(*self as u64)
    }
}

impl Sealed for u64 {

}

impl IFSBValueMarker for u64 {
    open spec fn scalar_view(&self) -> ScalarView {
        ScalarView::UInt(*self)
    }

    fn to_value(&self) -> (v: ScalarValue) {
        ScalarValue::UInt(*self)
    }
}

impl IFSValueMarker for u64 {
    open spec fn scalar_view(&self) -> ScalarView {
        ScalarView::UInt(*self)
    }

    fn to_value(&self) -> (v: ScalarValue) {
        ScalarValue::UInt(*self)
    }
}

impl Sealed for i8 {

}

impl IFSBValueMarker for i8 {
    open spec fn scalar_view(&self) -> ScalarView {
        ScalarView::Int(*self as i64)
    }

    fn to_value(&self) -> (v: ScalarValue) {
        ScalarValue::Int(*self as i64)
    }
}

impl IFSValueMarker for i8 {
    open spec fn scalar_view(&self) -> ScalarView {
        ScalarView::Int(*self as i64)
    }

    fn to_value(&self) -> (v: ScalarValue) {
        ScalarValue::Int(*self as i64)
    }
}

impl Sealed for i16 {

}

impl IFSBValueMarker for i16 {
    open spec fn scalar_view(&self) -> ScalarView {
        ScalarView::Int(*self as i64)
    }

    fn to_value(&self) -> (v: ScalarValue) {
        ScalarValue::Int(*self as i64)
    }
}

impl IFSValueMarker for i16 {
    open spec fn scalar_view(&self) -> ScalarView {
        ScalarView::Int(*self as i64)
    }

    fn to_value(&self) -> (v: ScalarValue) {
        ScalarValue::Int(*self as i64)
    }
}

impl Sealed for i32 {

}

impl IFSBValueMarker for i32 {
    open spec fn scalar_view(&self) -> ScalarView {
        ScalarView::Int(*self as i64)
    }

    fn to_value(&self) -> (v: ScalarValue) {
        ScalarValue::Int(*self as i64)
    }
}

impl IFSValueMarker for i32 {
    open spec fn scalar_view(&self) -> ScalarView {
        ScalarView::Int(*self as i64)
    }

    fn to_value(&self) -> (v: ScalarValue) {
        ScalarValue::Int(*self as i64)
    }
}

impl Sealed for i64 {

}

impl IFSBValueMarker for i64 {
    open spec fn scalar_view(&self) -> ScalarView {
        ScalarView::Int(*self)
    }

    fn to_value(&self) -> (v: ScalarValue) {
        ScalarValue::Int(*self)
    }
}

impl IFSValueMarker for i64 {
    open spec fn scalar_view(&self) -> ScalarView {
        ScalarView::Int(*self)
    }

    fn to_value(&self) -> (v: ScalarValue) {
        ScalarValue::Int(*self)
    }
}

impl Sealed for String {

}

impl IFSBValueMarker for String {
    open spec fn scalar_view(&self) -> ScalarView {
        ScalarView::Str(self@)
    }

    fn to_value(&self) -> (v: ScalarValue) {
        ScalarValue::Str(self.clone())
    }
}

impl IFSValueMarker for String {
    open spec fn scalar_view(&self) -> ScalarView {
        ScalarView::Str(self@)
    }

    fn to_value(&self) -> (v: ScalarValue) {
        ScalarValue::Str(self.clone())
    }
}

impl<'a> Sealed for &'a str {

}

impl<'a> IFSBValueMarker for &'a str {
    open spec fn scalar_view(&self) -> ScalarView {
        ScalarView::Str((*self)@)
    }

    fn to_value(&self) -> (v: ScalarValue) {
        ScalarValue::Str((*self).to_owned())
    }
}

impl<'a> IFSValueMarker for &'a str {
    open spec fn scalar_view(&self) -> ScalarView {
        ScalarView::Str((*self)@)
    }

    fn to_value(&self) -> (v: ScalarValue) {
        ScalarValue::Str((*self).to_owned())
    }
}

/// The closed operator set of the filter wire format.
#[derive(Debug, Clone, Copy, PartialEq, Eq, Structural)]
pub enum FilterOp {
    /// Equal.
    Eq,
    /// Not equal.
    Ne,
    /// Less than or equal.
    Le,
    /// Less than.
    Lt,
    /// Greater than or equal.
    Ge,
    /// Greater than.
    Gt,
    /// String or array containment.
    Contains,
    /// Negated containment.
    NotContains,
    /// String prefix.
    BeginsWith,
    /// Membership, up to 5 values.
    In,
    /// Negated membership, up to 5 values.
    NotIn,
    /// Range, two values.
    Between,
    /// Intersection, up to 20 values.
    ContainsAny,
}

/// The operator's name on the wire.
pub open spec fn op_name(op: FilterOp) -> Seq<char> {
    match op {
        FilterOp::Eq => "eq"@,
        FilterOp::Ne => "ne"@,
        FilterOp::Le => "le"@,
        FilterOp::Lt => "lt"@,
        FilterOp::Ge => "ge"@,
        FilterOp::Gt => "gt"@,
        FilterOp::Contains => "contains"@,
        FilterOp::NotContains => "notContains"@,
        FilterOp::BeginsWith => "beginsWith"@,
        FilterOp::In => "in"@,
        FilterOp::NotIn => "notIn"@,
        FilterOp::Between => "between"@,
        FilterOp::ContainsAny => "containsAny"@,
    }
}

/// Returns the operator's name on the wire.
pub fn op_wire_name(op: FilterOp) -> (r: &'static str)
    ensures
        r@ == op_name(op),
{
    match op {
        FilterOp::Eq => "eq",
        FilterOp::Ne => "ne",
        FilterOp::Le => "le",
        FilterOp::Lt => "lt",
        FilterOp::Ge => "ge",
        FilterOp::Gt => "gt",
        FilterOp::Contains => "contains",
        FilterOp::NotContains => "notContains",
        FilterOp::BeginsWith => "beginsWith",
        FilterOp::In => "in",
        FilterOp::NotIn => "notIn",
        FilterOp::Between => "between",
        FilterOp::ContainsAny => "containsAny",
    }
}

/// One field filter: a path, an operator and a value.
#[derive(Debug)]
pub struct FieldFilter {
    /// The field path.
    pub path: FieldPath,
    /// The operator.
    pub operator: FilterOp,
    /// The value compared against.
    pub value: FilterValue,
}

/// The mathematical shape of a field filter.
pub ghost struct FilterView {
    /// The path text.
    pub path: Seq<char>,
    /// The operator.
    pub op: FilterOp,
    /// The value.
    pub value: ValueView,
}

impl View for FieldFilter {
    type V = FilterView;

    open spec fn view(&self) -> FilterView {
        FilterView { path: self.path.path@, op: self.operator, value: self.value@ }
    }
}

/// The scalars a sequence of marker values stands for.
pub open spec fn marker_views<V: IFSValueMarker>(v: Seq<V>) -> Seq<ScalarView> {
    v.map_values(|x: V| x.scalar_view())
}

/// Converts marker values to their scalars, in order.
fn to_scalars<V: IFSValueMarker>(values: Vec<V>) -> (r: Vec<ScalarValue>)
    ensures
        scalars_view(r@) == marker_views(values@),
{
    let mut r: Vec<ScalarValue> = Vec::new();
    let n = values.len();
    let mut i: usize = 0;
    while i < n
        invariant
            i <= n,
            n == values@.len(),
            r@.len() == i,
            forall|k: int| 0 <= k < i ==> (#[trigger] r@[k])@ == values@[k].scalar_view(),
        decreases n - i,
    {
        r.push(values[i].to_value());
        i = i + 1;
    }
    proof {
        assert(scalars_view(r@) =~= marker_views(values@));
    }
    r
}

impl FieldPath {
    /// An equality filter.
    pub fn eq<V: IFSBValueMarker>(self, v: V) -> (r: FieldFilter)
        ensures
            r@ == (FilterView {
                path: self.path@,
                op: FilterOp::Eq,
                value: ValueView::Scalar(v.scalar_view()),
            }),
    {
        FieldFilter { path: self, operator: FilterOp::Eq, value: FilterValue::Scalar(v.to_value()) }
    }

    /// A not-equal filter.
    pub fn ne<V: IFSBValueMarker>(self, v: V) -> (r: FieldFilter)
        ensures
            r@ == (FilterView {
                path: self.path@,
                op: FilterOp::Ne,
                value: ValueView::Scalar(v.scalar_view()),
            }),
    {
        FieldFilter { path: self, operator: FilterOp::Ne, value: FilterValue::Scalar(v.to_value()) }
    }

    /// A less-than-or-equal filter.
    pub fn le<V: IFSValueMarker>(self, v: V) -> (r: FieldFilter)
        ensures
            r@ == (FilterView {
                path: self.path@,
                op: FilterOp::Le,
                value: ValueView::Scalar(v.scalar_view()),
            }),
    {
        FieldFilter { path: self, operator: FilterOp::Le, value: FilterValue::Scalar(v.to_value()) }
    }

    /// A less-than filter.
    pub fn lt<V: IFSValueMarker>(self, v: V) -> (r: FieldFilter)
        ensures
            r@ == (FilterView {
                path: self.path@,
                op: FilterOp::Lt,
                value: ValueView::Scalar(v.scalar_view()),
            }),
    {
        FieldFilter { path: self, operator: FilterOp::Lt, value: FilterValue::Scalar(v.to_value()) }
    }

    /// A greater-than-or-equal filter.
    pub fn ge<V: IFSValueMarker>(self, v: V) -> (r: FieldFilter)
        ensures
            r@ == (FilterView {
                path: self.path@,
                op: FilterOp::Ge,
                value: ValueView::Scalar(v.scalar_view()),
            }),
    {
        FieldFilter { path: self, operator: FilterOp::Ge, value: FilterValue::Scalar(v.to_value()) }
    }

    /// A greater-than filter.
    pub fn gt<V: IFSValueMarker>(self, v: V) -> (r: FieldFilter)
        ensures
            r@ == (FilterView {
                path: self.path@,
                op: FilterOp::Gt,
                value: ValueView::Scalar(v.scalar_view()),
            }),
    {
        FieldFilter { path: self, operator: FilterOp::Gt, value: FilterValue::Scalar(v.to_value()) }
    }

    /// A containment filter.
    pub fn contains<V: IFSValueMarker>(self, v: V) -> (r: FieldFilter)
        ensures
            r@ == (FilterView {
                path: self.path@,
                op: FilterOp::Contains,
                value: ValueView::Scalar(v.scalar_view()),
            }),
    {
        FieldFilter {
            path: self,
            operator: FilterOp::Contains,
            value: FilterValue::Scalar(v.to_value()),
        }
    }

    /// A negated containment filter.
    pub fn not_contains<V: IFSValueMarker>(self, v: V) -> (r: FieldFilter)
        ensures
            r@ == (FilterView {
                path: self.path@,
                op: FilterOp::NotContains,
                value: ValueView::Scalar(v.scalar_view()),
            }),
    {
        FieldFilter {
            path: self,
            operator: FilterOp::NotContains,
            value: FilterValue::Scalar(v.to_value()),
        }
    }

    /// A string prefix filter.
    pub fn begins_with(self, value: &str) -> (r: FieldFilter)
        ensures
            r@ == (FilterView {
                path: self.path@,
                op: FilterOp::BeginsWith,
                value: ValueView::Scalar(ScalarView::Str(value@)),
            }),
    {
        FieldFilter {
            path: self,
            operator: FilterOp::BeginsWith,
            value: FilterValue::Scalar(ScalarValue::Str(value.to_owned())),
        }
    }

    /// A membership filter over up to 5 values.
    pub fn in_values<V: IFSValueMarker>(self, values: FixedVec<V, 5>) -> (r: FieldFilter)
        ensures
            r@ == (FilterView {
                path: self.path@,
                op: FilterOp::In,
                value: ValueView::Arr(marker_views(values.items@)),
            }),
    {
        FieldFilter {
            path: self,
            operator: FilterOp::In,
            value: FilterValue::Arr(to_scalars(values.items)),
        }
    }

    /// A negated membership filter over up to 5 values.
    pub fn not_in<V: IFSValueMarker>(self, values: FixedVec<V, 5>) -> (r: FieldFilter)
        ensures
            r@ == (FilterView {
                path: self.path@,
                op: FilterOp::NotIn,
                value: ValueView::Arr(marker_views(values.items@)),
            }),
    {
        FieldFilter {
            path: self,
            operator: FilterOp::NotIn,
            value: FilterValue::Arr(to_scalars(values.items)),
        }
    }

    /// A range filter over exactly two values.
    pub fn between<V: IFSValueMarker>(self, start: V, end: V) -> (r: FieldFilter)
        ensures
            r@ == (FilterView {
                path: self.path@,
                op: FilterOp::Between,
                value: ValueView::Arr(seq![start.scalar_view(), end.scalar_view()]),
            }),
    {
        let mut vals: Vec<ScalarValue> = Vec::new();
        vals.push(start.to_value());
        vals.push(end.to_value());
        proof {
            assert(scalars_view(vals@) =~= seq![start.scalar_view(), end.scalar_view()]);
        }
        FieldFilter { path: self, operator: FilterOp::Between, value: FilterValue::Arr(vals) }
    }

    /// An intersection filter over up to 20 values.
    pub fn contains_any<V: IFSValueMarker>(self, values: FixedVec<V, 20>) -> (r: FieldFilter)
        ensures
            r@ == (FilterView {
                path: self.path@,
                op: FilterOp::ContainsAny,
                value: ValueView::Arr(marker_views(values.items@)),
            }),
    {
        FieldFilter {
            path: self,
            operator: FilterOp::ContainsAny,
            value: FilterValue::Arr(to_scalars(values.items)),
        }
    }
}

/// The wire text of one field filter.
pub open spec fn field_filter_json(f: FilterView) -> Seq<char> {
    "{\"fieldName\":"@ + scalar_json(ScalarView::Str(f.path)) + ",\"operator\":\""@ + op_name(f.op)
        + "\",\"value\":"@ + value_json(f.value) + "}"@
}

/// The views of a sequence of field filters.
pub open spec fn filters_view(v: Seq<FieldFilter>) -> Seq<FilterView> {
    v.map_values(|x: FieldFilter| x@)
}

/// The comma-joined wire texts of field filters.
pub open spec fn filters_inner_json(fs: Seq<FilterView>) -> Seq<char>
    decreases fs.len(),
{
    if fs.len() == 0 {
        Seq::empty()
    } else if fs.len() == 1 {
        field_filter_json(fs[0])
    } else {
        field_filter_json(fs[0]) + seq![','] + filters_inner_json(fs.drop_first())
    }
}

/// The wire text of one filter (an AND of up to 5 field filters).
pub open spec fn filter_json(fs: Seq<FilterView>) -> Seq<char> {
    "{\"filters\":["@ + filters_inner_json(fs) + "]}"@
}

/// The comma-joined wire texts of filters.
pub open spec fn group_inner_json(gs: Seq<Seq<FilterView>>) -> Seq<char>
    decreases gs.len(),
{
    if gs.len() == 0 {
        Seq::empty()
    } else if gs.len() == 1 {
        filter_json(gs[0])
    } else {
        filter_json(gs[0]) + seq![','] + group_inner_json(gs.drop_first())
    }
}

/// The wire text of a filter group (an OR of up to 10 filters).
pub open spec fn group_json(gs: Seq<Seq<FilterView>>) -> Seq<char> {
    "{\"filterGroup\":["@ + group_inner_json(gs) + "]}"@
}

/// Appends the wire text of one field filter.
fn push_field_filter(out: &mut String, f: &FieldFilter)
    ensures
        final(out)@ == old(out)@ + field_filter_json(f@),
{
    let ghost base = out@;
    out.append("{\"fieldName\":");
    push_scalar(out, &ScalarValue::Str(f.path.path.clone()));
    out.append(",\"operator\":\"");
    out.append(op_wire_name(f.operator));
    out.append("\",\"value\":");
    push_value(out, &f.value);
    out.append("}");
    proof {
        assert(out@ =~= base + field_filter_json(f@));
    }
}

impl FieldFilter {
    /// The wire text of this field filter.
    pub fn to_json(&self) -> (r: String)
        ensures
            r@ == field_filter_json(self@),
    {
        let mut out = String::new();
        push_field_filter(&mut out, self);
        proof {
            assert(out@ =~= field_filter_json(self@));
        }
        out
    }
}

/// A filter: up to 5 field filters combined with AND logic.
#[derive(Debug)]
pub struct Filter {
    /// The field filters.
    pub filters: FixedVec<FieldFilter, 5>,
}

impl View for Filter {
    type V = Seq<FilterView>;

    open spec fn view(&self) -> Seq<FilterView> {
        filters_view(self.filters.items@)
    }
}

impl Filter {
    /// Builds a filter from up to 5 field filters, kept in order.
    pub fn from_vec(v: Vec<FieldFilter>) -> (r: Option<Filter>)
        ensures
            (v@.len() <= 5) <==> (r is Some),
            r matches Some(f) ==> f@ == filters_view(v@),
    {
        match FixedVec::from_vec(v) {
            Some(fv) => Some(Filter { filters: fv }),
            None => None,
        }
    }

    /// Builds a filter of one field filter.
    pub fn single(ff: FieldFilter) -> (r: Filter)
        ensures
            r@ == seq![ff@],
    {
        let mut v: Vec<FieldFilter> = Vec::new();
        v.push(ff);
        proof {
            assert(filters_view(v@) =~= seq![v@[0]@]);
        }
        match FixedVec::from_vec(v) {
            Some(fv) => Filter { filters: fv },
            None => {
                proof {
                    assert(false);
                }
                Filter { filters: FixedVec { items: Vec::new() } }
            },
        }
    }

    /// The wire text of this filter.
    pub fn to_json(&self) -> (r: String)
        ensures
            r@ == filter_json(self@),
    {
        let mut out = String::new();
        out.append("{\"filters\":[");
        push_filters_inner(&mut out, &self.filters.items, 0);
        out.append("]}");
        proof {
            assert(filters_view(self.filters.items@).skip(0) =~= self@);
            assert(out@ =~= filter_json(self@));
        }
        out
    }
}

impl From<FixedVec<FieldFilter, 5>> for Filter {
    /// Wraps up to 5 field filters, kept in order.
    fn from(filters: FixedVec<FieldFilter, 5>) -> (r: Filter) {
        Filter { filters }
    }
}

impl vstd::std_specs::convert::FromSpecImpl<FixedVec<FieldFilter, 5>> for Filter {
    open spec fn obeys_from_spec() -> bool {
        true
    }

    open spec fn from_spec(filters: FixedVec<FieldFilter, 5>) -> Filter {
        Filter { filters }
    }
}

/// Appends the comma-joined wire texts of the field filters from `i` on.
fn push_filters_inner(out: &mut String, fs: &Vec<FieldFilter>, i: usize)
    requires
        i <= fs@.len(),
    ensures
        final(out)@ == old(out)@ + filters_inner_json(filters_view(fs@).skip(i as int)),
    decreases fs@.len() - i,
{
    let n = fs.len();
    if i >= n {
        proof {
            assert(filters_view(fs@).skip(i as int) =~= Seq::<FilterView>::empty());
        }
    } else if i == n - 1 {
        push_field_filter(out, &fs[i]);
        proof {
            let tail = filters_view(fs@).skip(i as int);
            assert(tail.len() == 1);
            assert(tail[0] == fs@[i as int]@);
            assert(final(out)@ =~= old(out)@ + filters_inner_json(tail));
        }
    } else {
        let ghost base = out@;
        push_field_filter(out, &fs[i]);
        out.push(',');
        push_filters_inner(out, fs, i + 1);
        proof {
            let tail = filters_view(fs@).skip(i as int);
            assert(tail.len() >= 2);
            assert(tail[0] == fs@[i as int]@);
            assert(tail.drop_first() =~= filters_view(fs@).skip(i as int + 1));
            assert(out@ =~= base + filters_inner_json(tail));
        }
    }
}

/// A filter group: up to 10 filters combined with OR logic.
#[derive(Debug)]
pub struct FilterGroup {
    /// The filters.
    pub filters: FixedVec<Filter, 10>,
}

/// The views of a sequence of filters.
pub open spec fn group_view(v: Seq<Filter>) -> Seq<Seq<FilterView>> {
    v.map_values(|x: Filter| x@)
}

impl View for FilterGroup {
    type V = Seq<Seq<FilterView>>;

    open spec fn view(&self) -> Seq<Seq<FilterView>> {
        group_view(self.filters.items@)
    }
}

impl FilterGroup {
    /// Builds a group from up to 10 filters, kept in order.
    pub fn from_vec(v: Vec<Filter>) -> (r: Option<FilterGroup>)
        ensures
            (v@.len() <= 10) <==> (r is Some),
            r matches Some(g) ==> g@ == group_view(v@),
    {
        match FixedVec::from_vec(v) {
            Some(fv) => Some(FilterGroup { filters: fv }),
            None => None,
        }
    }

    /// Builds a group of one filter.
    pub fn single(f: Filter) -> (r: FilterGroup)
        ensures
            r@ == seq![f@],
    {
        let mut v: Vec<Filter> = Vec::new();
        v.push(f);
        proof {
            assert(group_view(v@) =~= seq![v@[0]@]);
        }
        match FixedVec::from_vec(v) {
            Some(fv) => FilterGroup { filters: fv },
            None => {
                proof {
                    assert(false);
                }
                FilterGroup { filters: FixedVec { items: Vec::new() } }
            },
        }
    }

    /// The wire text of this group.
    pub fn to_json(&self) -> (r: String)
        ensures
            r@ == group_json(self@),
    {
        let mut out = String::new();
        out.append("{\"filterGroup\":[");
        push_group_inner(&mut out, &self.filters.items, 0);
        out.append("]}");
        proof {
            assert(group_view(self.filters.items@).skip(0) =~= self@);
            assert(out@ =~= group_json(self@));
        }
        out
    }
}

impl From<FixedVec<Filter, 10>> for FilterGroup {
    /// Wraps up to 10 filters, kept in order.
    fn from(filters: FixedVec<Filter, 10>) -> (r: FilterGroup) {
        FilterGroup { filters }
    }
}

impl vstd::std_specs::convert::FromSpecImpl<FixedVec<Filter, 10>> for FilterGroup {
    open spec fn obeys_from_spec() -> bool {
        true
    }

    open spec fn from_spec(filters: FixedVec<Filter, 10>) -> FilterGroup {
        FilterGroup { filters }
    }
}

/// Appends the comma-joined wire texts of the filters from `i` on.
fn push_group_inner(out: &mut String, fs: &Vec<Filter>, i: usize)
    requires
        i <= fs@.len(),
    ensures
        final(out)@ == old(out)@ + group_inner_json(group_view(fs@).skip(i as int)),
    decreases fs@.len() - i,
{
    let n = fs.len();
    if i >= n {
        proof {
            assert(group_view(fs@).skip(i as int) =~= Seq::<Seq<FilterView>>::empty());
        }
    } else if i == n - 1 {
        let f_json = fs[i].to_json();
        out.append(f_json.as_str());
        proof {
            let tail = group_view(fs@).skip(i as int);
            assert(tail.len() == 1);
            assert(tail[0] == fs@[i as int]@);
            assert(final(out)@ =~= old(out)@ + group_inner_json(tail));
        }
    } else {
        let ghost base = out@;
        let f_json = fs[i].to_json();
        out.append(f_json.as_str());
        out.push(',');
        push_group_inner(out, fs, i + 1);
        proof {
            let tail = group_view(fs@).skip(i as int);
            assert(tail.len() >= 2);
            assert(tail[0] == fs@[i as int]@);
            assert(tail.drop_first() =~= group_view(fs@).skip(i as int + 1));
            assert(out@ =~= base + group_inner_json(tail));
        }
    }
}

} // verus!
