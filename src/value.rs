use vstd::prelude::*;

verus! {

/// A parameter's current value as shown and edited in the UI.
#[derive(Debug, Clone, PartialEq)]
pub enum Value {
    /// A boolean toggle.
    Bool(bool),
    /// A customizable text value.
    Text(String),
    /// A 32-bit integer value.
    I32(i32),
    /// A choice among options: the selected index and the options' labels.
    Select(usize, Vec<String>),
}

/// The mathematical model of a [`Value`].
pub enum ValueView {
    Bool(bool),
    Text(Seq<char>),
    I32(i32),
    Select(usize, Seq<Seq<char>>),
}

/// The characters of each string.
pub open spec fn strings_view(v: Seq<String>) -> Seq<Seq<char>> {
    v.map_values(|s: String| s@)
}

impl View for Value {
    type V = ValueView;

    open spec fn view(&self) -> ValueView {
        match self {
            Value::Bool(b) => ValueView::Bool(*b),
            Value::Text(t) => ValueView::Text(t@),
            Value::I32(n) => ValueView::I32(*n),
            Value::Select(i, options) => ValueView::Select(*i, strings_view(options@)),
        }
    }
}

/// The value after `new` is applied to `current`: taken when it is of the
/// same kind (for a selection, only when its index names one of the current
/// options, which stay as they are), ignored otherwise.
pub open spec fn applied(current: ValueView, new: ValueView) -> ValueView {
    match (current, new) {
        (ValueView::Bool(_), ValueView::Bool(b)) => ValueView::Bool(b),
        (ValueView::Text(_), ValueView::Text(t)) => ValueView::Text(t),
        (ValueView::I32(_), ValueView::I32(n)) => ValueView::I32(n),
        (ValueView::Select(i, options), ValueView::Select(j, _)) => if j < options.len() {
            ValueView::Select(j, options)
        } else {
            ValueView::Select(i, options)
        },
        _ => current,
    }
}

/// The number that the decimal digits `d` spell.
pub open spec fn digits_value(d: Seq<char>) -> int
    decreases d.len(),
{
    if d.len() == 0 {
        0
    } else {
        digits_value(d.drop_last()) * 10 + (d.last() as int - '0' as int)
    }
}

/// `s` reads as a 32-bit integer: an optional `+` or `-`, then one or more
/// ASCII digits, with a value that fits; no whitespace anywhere.
pub open spec fn decimal_i32(s: Seq<char>) -> Option<i32> {
    let negative = s.len() > 0 && s[0] == '-';
    let d = if s.len() > 0 && (s[0] == '-' || s[0] == '+') { s.drop_first() } else { s };
    let v = if negative { -digits_value(d) } else { digits_value(d) };
    if d.len() == 0 || !(forall|i: int| 0 <= i < d.len() ==> '0' <= #[trigger] d[i] <= '9') {
        None
    } else if i32::MIN <= v <= i32::MAX {
        Some(v as i32)
    } else {
        None
    }
}

/// Relies on `str::parse::<i32>`: an optional sign and decimal digits, in range.
#[verifier::external_body]
fn parse_i32(s: &str) -> (r: Option<i32>)
    ensures
        r == decimal_i32(s@),
{
    s.parse::<i32>().ok()
}

/// The value that typed number text stands for; text that is not a number
/// gives nothing, and the edit is then ignored.
pub fn number_input(text: &str) -> (r: Option<Value>)
    ensures
        r == match decimal_i32(text@) {
            Some(n) => Some(Value::I32(n)),
            None => None,
        },
{
    match parse_i32(text) {
        Some(n) => Some(Value::I32(n)),
        None => None,
    }
}

impl From<String> for Value {
    fn from(value: String) -> (r: Value)
        ensures
            r == Value::Text(value),
    {
        Value::Text(value)
    }
}

impl vstd::std_specs::convert::FromSpecImpl<String> for Value {
    open spec fn obeys_from_spec() -> bool {
        true
    }

    open spec fn from_spec(v: String) -> Value {
        Value::Text(v)
    }
}

impl From<bool> for Value {
    fn from(value: bool) -> (r: Value)
        ensures
            r == Value::Bool(value),
    {
        Value::Bool(value)
    }
}

impl vstd::std_specs::convert::FromSpecImpl<bool> for Value {
    open spec fn obeys_from_spec() -> bool {
        true
    }

    open spec fn from_spec(v: bool) -> Value {
        Value::Bool(v)
    }
}

impl From<i32> for Value {
    fn from(value: i32) -> (r: Value)
        ensures
            r == Value::I32(value),
    {
        Value::I32(value)
    }
}

impl vstd::std_specs::convert::FromSpecImpl<i32> for Value {
    open spec fn obeys_from_spec() -> bool {
        true
    }

    open spec fn from_spec(v: i32) -> Value {
        Value::I32(v)
    }
}

} // verus!
