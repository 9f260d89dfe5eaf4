use vstd::prelude::*;

verus! {

/// The validity flags as the native widget reports them.
#[derive(Clone, Copy, Debug, PartialEq, Eq, Structural)]
pub struct NativeValidityState {
    pub bad_input: bool,
    pub custom_error: bool,
    pub pattern_mismatch: bool,
    pub range_overflow: bool,
    pub range_underflow: bool,
    pub step_mismatch: bool,
    pub too_long: bool,
    pub too_short: bool,
    pub type_mismatch: bool,
    pub valid: bool,
    pub value_missing: bool,
}

/// The validity flags as a validity-transform function sees and returns them.
#[derive(Clone, Copy, Debug, PartialEq, Eq, Structural)]
pub struct ValidityState {
    pub bad_input: bool,
    pub custom_error: bool,
    pub pattern_mismatch: bool,
    pub range_overflow: bool,
    pub range_underflow: bool,
    pub step_mismatch: bool,
    pub too_long: bool,
    pub too_short: bool,
    pub type_mismatch: bool,
    pub valid: bool,
    pub value_missing: bool,
}

pub open spec fn domain_of(n: NativeValidityState) -> ValidityState {
    ValidityState {
        bad_input: n.bad_input,
        custom_error: n.custom_error,
        pattern_mismatch: n.pattern_mismatch,
        range_overflow: n.range_overflow,
        range_underflow: n.range_underflow,
        step_mismatch: n.step_mismatch,
        too_long: n.too_long,
        too_short: n.too_short,
        type_mismatch: n.type_mismatch,
        valid: n.valid,
        value_missing: n.value_missing,
    }
}

pub open spec fn native_of(v: ValidityState) -> NativeValidityState {
    NativeValidityState {
        bad_input: v.bad_input,
        custom_error: v.custom_error,
        pattern_mismatch: v.pattern_mismatch,
        range_overflow: v.range_overflow,
        range_underflow: v.range_underflow,
        step_mismatch: v.step_mismatch,
        too_long: v.too_long,
        too_short: v.too_short,
        type_mismatch: v.type_mismatch,
        valid: v.valid,
        value_missing: v.value_missing,
    }
}

impl ValidityState {
    /// Reads the native flags into the domain form, field for field.
    pub fn from_native(n: &NativeValidityState) -> (r: ValidityState)
        ensures
            r == domain_of(*n),
    {
        ValidityState {
            bad_input: n.bad_input,
            custom_error: n.custom_error,
            pattern_mismatch: n.pattern_mismatch,
            range_overflow: n.range_overflow,
            range_underflow: n.range_underflow,
            step_mismatch: n.step_mismatch,
            too_long: n.too_long,
            too_short: n.too_short,
            type_mismatch: n.type_mismatch,
            valid: n.valid,
            value_missing: n.value_missing,
        }
    }

    /// Writes the domain flags back into the native form, field for field.
    pub fn to_native(&self) -> (r: NativeValidityState)
        ensures
            r == native_of(*self),
    {
        NativeValidityState {
            bad_input: self.bad_input,
            custom_error: self.custom_error,
            pattern_mismatch: self.pattern_mismatch,
            range_overflow: self.range_overflow,
            range_underflow: self.range_underflow,
            step_mismatch: self.step_mismatch,
            too_long: self.too_long,
            too_short: self.too_short,
            type_mismatch: self.type_mismatch,
            valid: self.valid,
            value_missing: self.value_missing,
        }
    }
}

/// A user-supplied validity-transform function, adapted to the signature that
/// the native widget expects: native flags in, native flags out.
pub struct ValidityTransform<F> {
    func: F,
}

impl<F: Fn(String, ValidityState) -> ValidityState> ValidityTransform<F> {
    pub closed spec fn func(&self) -> F {
        self.func
    }

    pub fn new(func: F) -> (r: ValidityTransform<F>)
        ensures
            r.func() == func,
    {
        ValidityTransform { func }
    }

    /// Converts the native flags to the domain form, runs the user function on
    /// them and converts its answer back.
    pub fn call(&self, value: String, native: NativeValidityState) -> (r: NativeValidityState)
        requires
            self.func().requires((value, domain_of(native))),
        ensures
            exists|d: ValidityState|
                self.func().ensures((value, domain_of(native)), d) && r == native_of(d),
    {
        let d = (self.func)(value, ValidityState::from_native(&native));
        d.to_native()
    }
}

/// Converting native flags to the domain form and back loses no field.
pub proof fn lemma_validity_round_trip(n: NativeValidityState)
    ensures
        native_of(domain_of(n)) == n,
{
}

/// A transform whose function hands back the flags it was given unchanged
/// yields, through the bridge, exactly the native flags it was called with.
pub proof fn lemma_identity_transform_round_trip<F: Fn(String, ValidityState) -> ValidityState>(
    t: ValidityTransform<F>,
    value: String,
    n: NativeValidityState,
    r: NativeValidityState,
)
    requires
        forall|s: String, v: ValidityState, d: ValidityState|
            #[trigger] t.func().ensures((s, v), d) ==> d == v,
        exists|d: ValidityState| t.func().ensures((value, domain_of(n)), d) && r == native_of(d),
    ensures
        r == n,
{
    let d = choose|d: ValidityState| t.func().ensures((value, domain_of(n)), d) && r == native_of(d);
    assert(d == domain_of(n));
}

} // verus!
