use vstd::prelude::*;

use crate::param::{param_applied, DynamicParam, Param, ParamView};
use crate::value::{Value, ValueView};

verus! {

/// The parameters as the UI sees them.
pub open spec fn params_view(ps: Seq<Param>) -> Seq<ParamView> {
    ps.map_values(|p: Param| p@)
}

/// The parameter list after `value` is applied at `index`: only the parameter
/// there changes, as [`param_applied`] says; an index past the end changes nothing.
pub open spec fn updated_at(ps: Seq<ParamView>, index: usize, value: ValueView) -> Seq<ParamView> {
    if index < ps.len() {
        ps.update(index as int, param_applied(ps[index as int], value))
    } else {
        ps
    }
}

/// A set of adjustable parameters, one or a tuple of up to eight, that can be
/// listed for the UI, updated by position and turned into typed values.
pub trait ExtractParams: Sized {
    /// The typed values handed to the preview.
    type Values;

    /// How many parameters the set holds.
    spec fn arity() -> nat;

    /// The parameters as the UI sees them, in declaration order.
    spec fn param_views(&self) -> Seq<ParamView>;

    /// `v` holds the typed form of each parameter's current value.
    spec fn extracts(&self, v: Self::Values) -> bool;

    /// The parameters as a list for display, in declaration order.
    fn to_params(&self) -> (r: Vec<Param>)
        ensures
            params_view(r@) == self.param_views(),
            r@.len() == Self::arity(),
    ;

    /// Applies `value` to the parameter at `index` only.
    fn update_index(&mut self, index: usize, value: Value)
        ensures
            final(self).param_views() == updated_at(old(self).param_views(), index, value@),
    ;

    /// The typed values.
    fn extract(&self) -> (r: Self::Values)
        ensures
            self.extracts(r),
    ;
}

impl<T: DynamicParam> ExtractParams for T {
    type Values = T::Value;

    open spec fn arity() -> nat {
        1
    }

    open spec fn param_views(&self) -> Seq<ParamView> {
        seq![self.param_view()]
    }

    open spec fn extracts(&self, v: T::Value) -> bool {
        self.yields(v)
    }

    fn to_params(&self) -> (r: Vec<Param>) {
        let r = vec![self.to_param()];
        assert(params_view(r@) =~= self.param_views());
        r
    }

    fn update_index(&mut self, index: usize, value: Value) {
        if index == 0 {
            self.update(value);
        }
        assert(self.param_views() =~= updated_at(old(self).param_views(), index, value@));
    }

    fn extract(&self) -> (r: T::Value) {
        DynamicParam::value(self)
    }
}

impl<A: DynamicParam, B: DynamicParam> ExtractParams for (A, B) {
    type Values = (A::Value, B::Value);

    open spec fn arity() -> nat {
        2
    }

    open spec fn param_views(&self) -> Seq<ParamView> {
        seq![self.0.param_view(), self.1.param_view()]
    }

    open spec fn extracts(&self, v: (A::Value, B::Value)) -> bool {
        &&& self.0.yields(v.0)
        &&& self.1.yields(v.1)
    }

    fn to_params(&self) -> (r: Vec<Param>) {
        let r = vec![self.0.to_param(), self.1.to_param()];
        assert(params_view(r@) =~= self.param_views());
        r
    }

    fn update_index(&mut self, index: usize, value: Value) {
        if index == 0 {
            self.0.update(value);
        } else if index == 1 {
            self.1.update(value);
        }
        assert(self.param_views() =~= updated_at(old(self).param_views(), index, value@));
    }

    fn extract(&self) -> (r: (A::Value, B::Value)) {
        (self.0.value(), self.1.value())
    }
}

impl<A: DynamicParam, B: DynamicParam, C: DynamicParam> ExtractParams for (A, B, C) {
    type Values = (A::Value, B::Value, C::Value);

    open spec fn arity() -> nat {
        3
    }

    open spec fn param_views(&self) -> Seq<ParamView> {
        seq![self.0.param_view(), self.1.param_view(), self.2.param_view()]
    }

    open spec fn extracts(&self, v: (A::Value, B::Value, C::Value)) -> bool {
        &&& self.0.yields(v.0)
        &&& self.1.yields(v.1)
        &&& self.2.yields(v.2)
    }

    fn to_params(&self) -> (r: Vec<Param>) {
        let r = vec![self.0.to_param(), self.1.to_param(), self.2.to_param()];
        assert(params_view(r@) =~= self.param_views());
        r
    }

    fn update_index(&mut self, index: usize, value: Value) {
        if index == 0 {
            self.0.update(value);
        } else if index == 1 {
            self.1.update(value);
        } else if index == 2 {
            self.2.update(value);
        }
        assert(self.param_views() =~= updated_at(old(self).param_views(), index, value@));
    }

    fn extract(&self) -> (r: (A::Value, B::Value, C::Value)) {
        (self.0.value(), self.1.value(), self.2.value())
    }
}

impl<A: DynamicParam, B: DynamicParam, C: DynamicParam, D: DynamicParam> ExtractParams for (A, B, C, D) {
    type Values = (A::Value, B::Value, C::Value, D::Value);

    open spec fn arity() -> nat {
        4
    }

    open spec fn param_views(&self) -> Seq<ParamView> {
        seq![self.0.param_view(), self.1.param_view(), self.2.param_view(), self.3.param_view()]
    }

    open spec fn extracts(&self, v: (A::Value, B::Value, C::Value, D::Value)) -> bool {
        &&& self.0.yields(v.0)
        &&& self.1.yields(v.1)
        &&& self.2.yields(v.2)
        &&& self.3.yields(v.3)
    }

    fn to_params(&self) -> (r: Vec<Param>) {
        let r = vec![self.0.to_param(), self.1.to_param(), self.2.to_param(), self.3.to_param()];
        assert(params_view(r@) =~= self.param_views());
        r
    }

    fn update_index(&mut self, index: usize, value: Value) {
        if index == 0 {
            self.0.update(value);
        } else if index == 1 {
            self.1.update(value);
        } else if index == 2 {
            self.2.update(value);
        } else if index == 3 {
            self.3.update(value);
        }
        assert(self.param_views() =~= updated_at(old(self).param_views(), index, value@));
    }

    fn extract(&self) -> (r: (A::Value, B::Value, C::Value, D::Value)) {
        (self.0.value(), self.1.value(), self.2.value(), self.3.value())
    }
}

impl<A: DynamicParam, B: DynamicParam, C: DynamicParam, D: DynamicParam, E: DynamicParam> ExtractParams for (A, B, C, D, E) {
    type Values = (A::Value, B::Value, C::Value, D::Value, E::Value);

    open spec fn arity() -> nat {
        5
    }

    open spec fn param_views(&self) -> Seq<ParamView> {
        seq![self.0.param_view(), self.1.param_view(), self.2.param_view(), self.3.param_view(), self.4.param_view()]
    }

    open spec fn extracts(&self, v: (A::Value, B::Value, C::Value, D::Value, E::Value)) -> bool {
        &&& self.0.yields(v.0)
        &&& self.1.yields(v.1)
        &&& self.2.yields(v.2)
        &&& self.3.yields(v.3)
        &&& self.4.yields(v.4)
    }

    fn to_params(&self) -> (r: Vec<Param>) {
        let r = vec![self.0.to_param(), self.1.to_param(), self.2.to_param(), self.3.to_param(), self.4.to_param()];
        assert(params_view(r@) =~= self.param_views());
        r
    }

    fn update_index(&mut self, index: usize, value: Value) {
        if index == 0 {
            self.0.update(value);
        } else if index == 1 {
            self.1.update(value);
        } else if index == 2 {
            self.2.update(value);
        } else if index == 3 {
            self.3.update(value);
        } else if index == 4 {
            self.4.update(value);
        }
        assert(self.param_views() =~= updated_at(old(self).param_views(), index, value@));
    }

    fn extract(&self) -> (r: (A::Value, B::Value, C::Value, D::Value, E::Value)) {
        (self.0.value(), self.1.value(), self.2.value(), self.3.value(), self.4.value())
    }
}

impl<A: DynamicParam, B: DynamicParam, C: DynamicParam, D: DynamicParam, E: DynamicParam, F: DynamicParam> ExtractParams for (A, B, C, D, E, F) {
    type Values = (A::Value, B::Value, C::Value, D::Value, E::Value, F::Value);

    open spec fn arity() -> nat {
        6
    }

    open spec fn param_views(&self) -> Seq<ParamView> {
        seq![self.0.param_view(), self.1.param_view(), self.2.param_view(), self.3.param_view(), self.4.param_view(), self.5.param_view()]
    }

    open spec fn extracts(&self, v: (A::Value, B::Value, C::Value, D::Value, E::Value, F::Value)) -> bool {
        &&& self.0.yields(v.0)
        &&& self.1.yields(v.1)
        &&& self.2.yields(v.2)
        &&& self.3.yields(v.3)
        &&& self.4.yields(v.4)
        &&& self.5.yields(v.5)
    }

    fn to_params(&self) -> (r: Vec<Param>) {
        let r = vec![self.0.to_param(), self.1.to_param(), self.2.to_param(), self.3.to_param(), self.4.to_param(), self.5.to_param()];
        assert(params_view(r@) =~= self.param_views());
        r
    }

    fn update_index(&mut self, index: usize, value: Value) {
        if index == 0 {
            self.0.update(value);
        } else if index == 1 {
            self.1.update(value);
        } else if index == 2 {
            self.2.update(value);
        } else if index == 3 {
            self.3.update(value);
        } else if index == 4 {
            self.4.update(value);
        } else if index == 5 {
            self.5.update(value);
        }
        assert(self.param_views() =~= updated_at(old(self).param_views(), index, value@));
    }

    fn extract(&self) -> (r: (A::Value, B::Value, C::Value, D::Value, E::Value, F::Value)) {
        (self.0.value(), self.1.value(), self.2.value(), self.3.value(), self.4.value(), self.5.value())
    }
}

impl<A: DynamicParam, B: DynamicParam, C: DynamicParam, D: DynamicParam, E: DynamicParam, F: DynamicParam, G: DynamicParam> ExtractParams for (A, B, C, D, E, F, G) {
    type Values = (A::Value, B::Value, C::Value, D::Value, E::Value, F::Value, G::Value);

    open spec fn arity() -> nat {
        7
    }

    open spec fn param_views(&self) -> Seq<ParamView> {
        seq![self.0.param_view(), self.1.param_view(), self.2.param_view(), self.3.param_view(), self.4.param_view(), self.5.param_view(), self.6.param_view()]
    }

    open spec fn extracts(&self, v: (A::Value, B::Value, C::Value, D::Value, E::Value, F::Value, G::Value)) -> bool {
        &&& self.0.yields(v.0)
        &&& self.1.yields(v.1)
        &&& self.2.yields(v.2)
        &&& self.3.yields(v.3)
        &&& self.4.yields(v.4)
        &&& self.5.yields(v.5)
        &&& self.6.yields(v.6)
    }

    fn to_params(&self) -> (r: Vec<Param>) {
        let r = vec![self.0.to_param(), self.1.to_param(), self.2.to_param(), self.3.to_param(), self.4.to_param(), self.5.to_param(), self.6.to_param()];
        assert(params_view(r@) =~= self.param_views());
        r
    }

    fn update_index(&mut self, index: usize, value: Value) {
        if index == 0 {
            self.0.update(value);
        } else if index == 1 {
            self.1.update(value);
        } else if index == 2 {
            self.2.update(value);
        } else if index == 3 {
            self.3.update(value);
        } else if index == 4 {
            self.4.update(value);
        } else if index == 5 {
            self.5.update(value);
        } else if index == 6 {
            self.6.update(value);
        }
        assert(self.param_views() =~= updated_at(old(self).param_views(), index, value@));
    }

    fn extract(&self) -> (r: (A::Value, B::Value, C::Value, D::Value, E::Value, F::Value, G::Value)) {
        (self.0.value(), self.1.value(), self.2.value(), self.3.value(), self.4.value(), self.5.value(), self.6.value())
    }
}

impl<A: DynamicParam, B: DynamicParam, C: DynamicParam, D: DynamicParam, E: DynamicParam, F: DynamicParam, G: DynamicParam, H: DynamicParam> ExtractParams for (A, B, C, D, E, F, G, H) {
    type Values = (A::Value, B::Value, C::Value, D::Value, E::Value, F::Value, G::Value, H::Value);

    open spec fn arity() -> nat {
        8
    }

    open spec fn param_views(&self) -> Seq<ParamView> {
        seq![self.0.param_view(), self.1.param_view(), self.2.param_view(), self.3.param_view(), self.4.param_view(), self.5.param_view(), self.6.param_view(), self.7.param_view()]
    }

    open spec fn extracts(&self, v: (A::Value, B::Value, C::Value, D::Value, E::Value, F::Value, G::Value, H::Value)) -> bool {
        &&& self.0.yields(v.0)
        &&& self.1.yields(v.1)
        &&& self.2.yields(v.2)
        &&& self.3.yields(v.3)
        &&& self.4.yields(v.4)
        &&& self.5.yields(v.5)
        &&& self.6.yields(v.6)
        &&& self.7.yields(v.7)
    }

    fn to_params(&self) -> (r: Vec<Param>) {
        let r = vec![self.0.to_param(), self.1.to_param(), self.2.to_param(), self.3.to_param(), self.4.to_param(), self.5.to_param(), self.6.to_param(), self.7.to_param()];
        assert(params_view(r@) =~= self.param_views());
        r
    }

    fn update_index(&mut self, index: usize, value: Value) {
        if index == 0 {
            self.0.update(value);
        } else if index == 1 {
            self.1.update(value);
        } else if index == 2 {
            self.2.update(value);
        } else if index == 3 {
            self.3.update(value);
        } else if index == 4 {
            self.4.update(value);
        } else if index == 5 {
            self.5.update(value);
        } else if index == 6 {
            self.6.update(value);
        } else if index == 7 {
            self.7.update(value);
        }
        assert(self.param_views() =~= updated_at(old(self).param_views(), index, value@));
    }

    fn extract(&self) -> (r: (A::Value, B::Value, C::Value, D::Value, E::Value, F::Value, G::Value, H::Value)) {
        (self.0.value(), self.1.value(), self.2.value(), self.3.value(), self.4.value(), self.5.value(), self.6.value(), self.7.value())
    }
}

/// The parameters of a parameter-driven preview, with the list shown in the
/// UI and the typed values handed to the preview kept in step with them.
pub struct ParamSet<P: ExtractParams> {
    params: P,
    cached_params: Vec<Param>,
    cached_values: P::Values,
}

impl<P: ExtractParams> ParamSet<P> {
    /// The cached list and values describe the current parameters.
    pub closed spec fn wf(&self) -> bool {
        &&& params_view(self.cached_params@) == self.params.param_views()
        &&& self.params.extracts(self.cached_values)
    }

    /// The parameters as the UI sees them.
    pub closed spec fn param_views(&self) -> Seq<ParamView> {
        self.params.param_views()
    }

    /// The parameters themselves.
    pub closed spec fn spec_params(&self) -> P {
        self.params
    }

    /// Wraps `params`, computing the list and the typed values.
    pub fn new(params: P) -> (r: Self)
        ensures
            r.wf(),
            r.spec_params() == params,
    {
        let cached_params = params.to_params();
        let cached_values = params.extract();
        ParamSet { params, cached_params, cached_values }
    }

    /// Applies `value` at `index`, then recomputes the list and the typed values.
    pub fn change(&mut self, index: usize, value: Value)
        requires
            old(self).wf(),
        ensures
            final(self).wf(),
            final(self).param_views() == updated_at(old(self).param_views(), index, value@),
    {
        self.params.update_index(index, value);
        self.cached_params = self.params.to_params();
        self.cached_values = self.params.extract();
    }

    /// The list shown in the UI.
    pub fn params(&self) -> (r: &[Param])
        requires
            self.wf(),
        ensures
            params_view(r@) == self.param_views(),
    {
        self.cached_params.as_slice()
    }

    /// The typed values for the preview.
    pub fn values(&self) -> (r: &P::Values)
        requires
            self.wf(),
        ensures
            self.spec_params().extracts(*r),
    {
        &self.cached_values
    }
}

/// Updating by position touches one parameter: the list keeps its length and
/// every name, and only the value at `index` may change.
pub proof fn lemma_update_touches_one(ps: Seq<ParamView>, index: usize, value: ValueView)
    ensures
        updated_at(ps, index, value).len() == ps.len(),
        forall|j: int| 0 <= j < ps.len() ==> #[trigger] updated_at(ps, index, value)[j].name == ps[j].name,
        forall|j: int| 0 <= j < ps.len() && j != index ==> #[trigger] updated_at(ps, index, value)[j] == ps[j],
{
}

} // verus!
