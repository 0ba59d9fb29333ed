use vstd::prelude::*;
use vstd::std_specs::cmp::PartialEqSpec;

use crate::value::{applied, strings_view, Value, ValueView};

verus! {

/// An adjustable parameter as listed in the UI: its name and current value.
#[derive(Debug, Clone, PartialEq)]
pub struct Param {
    /// The display name of the parameter.
    pub name: String,
    /// The current value of the parameter.
    pub value: Value,
}

/// The mathematical model of a [`Param`].
pub struct ParamView {
    pub name: Seq<char>,
    pub value: ValueView,
}

impl View for Param {
    type V = ParamView;

    open spec fn view(&self) -> ParamView {
        ParamView { name: self.name@, value: self.value@ }
    }
}

/// The parameter after `value` is applied to it: same name, value as [`applied`] says.
pub open spec fn param_applied(p: ParamView, value: ValueView) -> ParamView {
    ParamView { name: p.name, value: applied(p.value, value) }
}

impl Param {
    /// A parameter named `name` holding `value`.
    pub fn new(name: &str, value: Value) -> (r: Self)
        ensures
            r@ == (ParamView { name: name@, value: value@ }),
    {
        Param { name: name.to_owned(), value }
    }
}

/// A single adjustable parameter that owns its typed value; the UI sees it
/// as a [`Param`] and edits it through [`Value`]s.
pub trait DynamicParam: Sized {
    /// The typed value handed to the preview.
    type Value;

    /// The parameter as the UI sees it.
    spec fn param_view(&self) -> ParamView;

    /// `v` is the typed form of the current value.
    spec fn yields(&self, v: Self::Value) -> bool;

    /// The parameter's name.
    fn name(&self) -> (r: &str)
        ensures
            r@ == self.param_view().name,
    ;

    /// The current value, boxed as a [`Param`] for display.
    fn to_param(&self) -> (r: Param)
        ensures
            r@ == self.param_view(),
    ;

    /// Applies `value` if it is of this parameter's kind; otherwise nothing changes.
    fn update(&mut self, value: Value)
        ensures
            final(self).param_view() == param_applied(old(self).param_view(), value@),
    ;

    /// The typed current value.
    fn value(&self) -> (r: Self::Value)
        ensures
            self.yields(r),
    ;
}

/// A text parameter producing `String` values.
#[derive(Debug, Clone)]
pub struct TextParam {
    name: String,
    value: String,
}

impl DynamicParam for TextParam {
    type Value = String;

    closed spec fn param_view(&self) -> ParamView {
        ParamView { name: self.name@, value: ValueView::Text(self.value@) }
    }

    open spec fn yields(&self, v: String) -> bool {
        self.param_view().value == ValueView::Text(v@)
    }

    fn name(&self) -> (r: &str) {
        self.name.as_str()
    }

    fn to_param(&self) -> (r: Param) {
        Param { name: self.name.clone(), value: Value::Text(self.value.clone()) }
    }

    fn update(&mut self, value: Value) {
        if let Value::Text(text) = value {
            self.value = text;
        }
    }

    fn value(&self) -> (r: String) {
        self.value.clone()
    }
}

/// A number parameter producing `i32` values.
#[derive(Debug, Clone)]
pub struct NumberParam {
    name: String,
    value: i32,
}

impl DynamicParam for NumberParam {
    type Value = i32;

    closed spec fn param_view(&self) -> ParamView {
        ParamView { name: self.name@, value: ValueView::I32(self.value) }
    }

    open spec fn yields(&self, v: i32) -> bool {
        self.param_view().value == ValueView::I32(v)
    }

    fn name(&self) -> (r: &str) {
        self.name.as_str()
    }

    fn to_param(&self) -> (r: Param) {
        Param { name: self.name.clone(), value: Value::I32(self.value) }
    }

    fn update(&mut self, value: Value) {
        if let Value::I32(n) = value {
            self.value = n;
        }
    }

    fn value(&self) -> (r: i32) {
        self.value
    }
}

/// A boolean parameter producing `bool` values.
#[derive(Debug, Clone)]
pub struct BoolParam {
    name: String,
    value: bool,
}

impl DynamicParam for BoolParam {
    type Value = bool;

    closed spec fn param_view(&self) -> ParamView {
        ParamView { name: self.name@, value: ValueView::Bool(self.value) }
    }

    open spec fn yields(&self, v: bool) -> bool {
        self.param_view().value == ValueView::Bool(v)
    }

    fn name(&self) -> (r: &str) {
        self.name.as_str()
    }

    fn to_param(&self) -> (r: Param) {
        Param { name: self.name.clone(), value: Value::Bool(self.value) }
    }

    fn update(&mut self, value: Value) {
        if let Value::Bool(b) = value {
            self.value = b;
        }
    }

    fn value(&self) -> (r: bool) {
        self.value
    }
}

/// A text parameter named `name` starting at `value`.
pub fn text(name: &str, value: &str) -> (r: TextParam)
    ensures
        r.param_view() == (ParamView { name: name@, value: ValueView::Text(value@) }),
{
    TextParam { name: name.to_owned(), value: value.to_owned() }
}

/// A number parameter named `name` starting at `value`.
pub fn number(name: &str, value: i32) -> (r: NumberParam)
    ensures
        r.param_view() == (ParamView { name: name@, value: ValueView::I32(value) }),
{
    NumberParam { name: name.to_owned(), value }
}

/// A boolean parameter named `name` starting at `value`.
pub fn boolean(name: &str, value: bool) -> (r: BoolParam)
    ensures
        r.param_view() == (ParamView { name: name@, value: ValueView::Bool(value) }),
{
    BoolParam { name: name.to_owned(), value }
}

/// A parameter choosing among typed options; the UI sees each option by its
/// `Display` text.
#[derive(Debug)]
pub struct SelectParam<T> {
    name: String,
    options: Vec<T>,
    labels: Vec<String>,
    selected_index: usize,
}

impl<T> SelectParam<T> {
    /// The selection names an option, and each option has a label.
    #[verifier::type_invariant]
    spec fn inv(&self) -> bool {
        &&& self.selected_index < self.options@.len()
        &&& self.labels@.len() == self.options@.len()
    }

    /// The options, in order.
    pub closed spec fn options(&self) -> Seq<T> {
        self.options@
    }

    /// The display text of each option.
    pub closed spec fn labels(&self) -> Seq<String> {
        self.labels@
    }

    /// The index of the selected option.
    pub closed spec fn selected(&self) -> usize {
        self.selected_index
    }
}

impl<T: Clone> Clone for SelectParam<T> {
    fn clone(&self) -> (r: Self)
        ensures
            r.param_view() == self.param_view(),
            r.options().len() == self.options().len(),
            forall|i: int| 0 <= i < self.options().len() ==> cloned(self.options()[i], #[trigger] r.options()[i]),
            r.labels() == self.labels(),
            r.selected() == self.selected(),
    {
        proof {
            use_type_invariant(self);
        }
        let labels = self.labels.clone();
        assert(labels@ =~= self.labels@);
        SelectParam {
            name: self.name.clone(),
            options: self.options.clone(),
            labels,
            selected_index: self.selected_index,
        }
    }
}

impl<T: Clone> DynamicParam for SelectParam<T> {
    type Value = T;

    closed spec fn param_view(&self) -> ParamView {
        ParamView {
            name: self.name@,
            value: ValueView::Select(self.selected_index, strings_view(self.labels@)),
        }
    }

    open spec fn yields(&self, v: T) -> bool {
        cloned(self.options()[self.selected() as int], v)
    }

    fn name(&self) -> (r: &str) {
        self.name.as_str()
    }

    fn to_param(&self) -> (r: Param) {
        let labels = self.labels.clone();
        assert(strings_view(labels@) =~= strings_view(self.labels@));
        Param { name: self.name.clone(), value: Value::Select(self.selected_index, labels) }
    }

    fn update(&mut self, value: Value) {
        proof {
            use_type_invariant(&*self);
        }
        if let Value::Select(index, _) = value {
            if index < self.options.len() {
                self.selected_index = index;
            }
        }
    }

    fn value(&self) -> (r: T) {
        proof {
            use_type_invariant(self);
        }
        self.options[self.selected_index].clone()
    }
}

/// A select parameter named `name` over `options`, starting at the first
/// option equal to `default`, which must be among them.
pub fn select<T: std::fmt::Display + Clone + PartialEq>(name: &str, options: &[T], default: T) -> (r: SelectParam<T>)
    requires
        T::obeys_eq_spec(),
        exists|i: int| 0 <= i < options@.len() && options@[i].eq_spec(&default),
    ensures
        r.param_view() == (ParamView {
            name: name@,
            value: ValueView::Select(r.selected(), strings_view(r.labels())),
        }),
        r.options().len() == options@.len(),
        forall|i: int| 0 <= i < options@.len() ==> cloned(options@[i], #[trigger] r.options()[i]),
        r.labels().len() == options@.len(),
        forall|i: int|
            0 <= i < options@.len() ==> vstd::string::to_string_from_display_ensures::<T>(
                &options@[i],
                #[trigger] r.labels()[i],
            ),
        r.selected() < options@.len(),
        options@[r.selected() as int].eq_spec(&default),
        forall|j: int| 0 <= j < r.selected() ==> !(#[trigger] options@[j]).eq_spec(&default),
{
    let mut owned: Vec<T> = Vec::new();
    let mut labels: Vec<String> = Vec::new();
    let mut found: Option<usize> = None;
    let mut i: usize = 0;
    while i < options.len()
        invariant
            0 <= i <= options@.len(),
            T::obeys_eq_spec(),
            owned@.len() == i,
            labels@.len() == i,
            forall|k: int| 0 <= k < i ==> cloned(options@[k], #[trigger] owned@[k]),
            forall|k: int|
                0 <= k < i ==> vstd::string::to_string_from_display_ensures::<T>(
                    &options@[k],
                    #[trigger] labels@[k],
                ),
            match found {
                None => forall|j: int| 0 <= j < i ==> !(#[trigger] options@[j]).eq_spec(&default),
                Some(f) => f < i && options@[f as int].eq_spec(&default) && forall|j: int|
                    0 <= j < f ==> !(#[trigger] options@[j]).eq_spec(&default),
            },
        decreases options@.len() - i,
    {
        let same = options[i].eq(&default);
        if found.is_none() && same {
            found = Some(i);
        }
        owned.push(options[i].clone());
        labels.push(options[i].to_string());
        i = i + 1;
    }
    let selected_index = match found {
        Some(f) => f,
        None => {
            assert(false);
            0
        },
    };
    let r = SelectParam { name: name.to_owned(), options: owned, labels, selected_index };
    r
}

} // verus!
