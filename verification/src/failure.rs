//! Structured protocol failures: a stable error code, a human message,
//! whether a retry may help, and machine-readable details.
use vstd::prelude::*;
use crate::text::{chars_of, i64_to_decimal};

verus! {

/// A value in the details of a failure.
#[derive(Debug, Clone)]
pub enum DetailValue {
    Text(String),
    Integer(i64),
    Count(usize),
    Texts(Vec<String>),
    Integers(Vec<i64>),
}

/// One key of the details object of a failure.
#[derive(Debug, Clone)]
pub struct FailureDetail {
    pub key: String,
    pub value: DetailValue,
}

/// A request that could not be served, as reported to the client.
#[derive(Debug, Clone)]
pub struct ProtocolFailure {
    pub code: String,
    pub message: String,
    pub retryable: bool,
    pub details: Vec<FailureDetail>,
}

pub enum DetailView {
    Text(Seq<char>),
    Integer(int),
    Texts(Seq<Seq<char>>),
    Integers(Seq<int>),
}

pub struct FailureView {
    pub code: Seq<char>,
    pub message: Seq<char>,
    pub retryable: bool,
    pub details: Seq<(Seq<char>, DetailView)>,
}

impl View for DetailValue {
    type V = DetailView;

    open spec fn view(&self) -> DetailView {
        match self {
            DetailValue::Text(s) => DetailView::Text(s@),
            DetailValue::Integer(i) => DetailView::Integer(*i as int),
            DetailValue::Count(n) => DetailView::Integer(*n as int),
            DetailValue::Texts(v) => DetailView::Texts(v@.map_values(|s: String| s@)),
            DetailValue::Integers(v) => DetailView::Integers(v@.map_values(|i: i64| i as int)),
        }
    }
}

impl View for FailureDetail {
    type V = (Seq<char>, DetailView);

    open spec fn view(&self) -> (Seq<char>, DetailView) {
        (self.key@, self.value@)
    }
}

impl View for ProtocolFailure {
    type V = FailureView;

    open spec fn view(&self) -> FailureView {
        FailureView {
            code: self.code@,
            message: self.message@,
            retryable: self.retryable,
            details: self.details@.map_values(|d: FailureDetail| d@),
        }
    }
}

/// A non-retryable failure with the given code, message and details.
pub open spec fn failure(code: Seq<char>, message: Seq<char>, details: Seq<(Seq<char>, DetailView)>) -> FailureView {
    FailureView { code, message, retryable: false, details }
}

/// The details `{"field": field}`.
pub open spec fn field_details(field: Seq<char>) -> Seq<(Seq<char>, DetailView)> {
    seq![("field"@, DetailView::Text(field))]
}

/// A string with the same characters as a literal.
pub fn string_from(s: &str) -> (r: String)
    ensures
        r@ == s@,
{
    s.to_owned()
}

impl ProtocolFailure {
    /// A non-retryable failure without details.
    pub fn new(code: &str, message: &str) -> (r: ProtocolFailure)
        ensures
            r@ == failure(code@, message@, seq![]),
    {
        let r = ProtocolFailure {
            code: string_from(code),
            message: string_from(message),
            retryable: false,
            details: Vec::new(),
        };
        assert(r@.details =~= Seq::<(Seq<char>, DetailView)>::empty());
        r
    }

    /// The same failure with one more detail.
    pub fn with_detail(self, key: &str, value: DetailValue) -> (r: ProtocolFailure)
        ensures
            r@ == (FailureView { details: self@.details.push((key@, value@)), ..self@ }),
    {
        let mut details = self.details;
        let ghost before = details@;
        details.push(FailureDetail { key: string_from(key), value });
        let r = ProtocolFailure { code: self.code, message: self.message, retryable: self.retryable, details };
        assert(r@.details =~= self@.details.push((key@, value@)));
        r
    }

    /// The same failure with the detail `field`.
    pub fn with_field(self, field: &str) -> (r: ProtocolFailure)
        ensures
            r@ == (FailureView { details: self@.details + field_details(field@), ..self@ }),
    {
        let r = self.with_detail("field", DetailValue::Text(string_from(field)));
        assert(r@.details =~= self@.details + field_details(field@));
        r
    }
}

/// The text values of a list of string literals.
pub fn texts(items: &[&str]) -> (r: DetailValue)
    ensures
        r@ == DetailView::Texts(items@.map_values(|s: &str| s@)),
{
    let mut v: Vec<String> = Vec::new();
    let mut i: usize = 0;
    while i < items.len()
        invariant
            i <= items@.len(),
            v@.map_values(|s: String| s@) =~= items@.subrange(0, i as int).map_values(|s: &str| s@),
        decreases items.len() - i,
    {
        let ghost old_v = v@;
        let item = string_from(items[i]);
        v.push(item);
        assert(v@ == old_v.push(item));
        assert(v@.map_values(|s: String| s@) =~= old_v.map_values(|s: String| s@).push(item@));
        assert(items@.subrange(0, i + 1) =~= items@.subrange(0, i as int).push(items@[i as int]));
        assert(items@.subrange(0, i + 1).map_values(|s: &str| s@) =~= items@.subrange(0, i as int).map_values(|s: &str| s@).push(items@[i as int]@));
        assert(v@.map_values(|s: String| s@) =~= items@.subrange(0, i + 1).map_values(|s: &str| s@));
        i = i + 1;
    }
    assert(items@.subrange(0, items@.len() as int) =~= items@);
    DetailValue::Texts(v)
}

/// Whether two strings hold the same characters.
pub fn str_equals(a: &str, b: &str) -> (r: bool)
    ensures
        r == (a@ == b@),
{
    let x = chars_of(a);
    let y = chars_of(b);
    if x.len() != y.len() {
        return false;
    }
    let mut i: usize = 0;
    while i < x.len()
        invariant
            x@.len() == y@.len(),
            x@ == a@,
            y@ == b@,
            i <= x@.len(),
            forall|j: int| 0 <= j < i ==> x@[j] == y@[j],
        decreases x.len() - i,
    {
        if x[i] != y[i] {
            assert(x@[i as int] != y@[i as int]);
            return false;
        }
        i = i + 1;
    }
    assert(x@ =~= y@);
    true
}

/// The decimal text of an integer, as a detail-free message fragment.
pub fn integer_text(i: i64) -> (r: String)
    ensures
        r@ == crate::text::decimal_int(i as int),
{
    i64_to_decimal(i)
}

} // verus!
