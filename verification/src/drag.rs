//! Builders of the drag widgets: a value, or a range, that the user changes
//! by dragging.
//!
//! A builder gathers the arguments of one native call; its view is that call,
//! and `build` hands the call over. Speeds, powers and the limits of the float
//! widgets are single-precision bits.

use core::marker::PhantomData;
use vstd::prelude::*;
use crate::context::Ui;
use crate::geometry::{F32_ONE, F32_ZERO};

verus! {

/// The native call of a drag widget on one single-precision number.
pub struct DragFloatCall<'p> {
    pub label: &'p str,
    /// The value, changed in place by the widget.
    pub value: &'p mut u32,
    /// Change per pixel dragged, as single-precision bits.
    pub speed: u32,
    /// Lower limit; no limit applies where `min` is not below `max`.
    pub min: u32,
    /// Upper limit.
    pub max: u32,
    /// The format under which the value is shown.
    pub display_format: &'p str,
    /// Exponent of the drag curve, as single-precision bits.
    pub power: u32,
}

/// Builder of a drag widget on one single-precision number.
#[must_use]
pub struct DragFloat<'ui, 'p> {
    label: &'p str,
    value: &'p mut u32,
    speed: u32,
    min: u32,
    max: u32,
    display_format: &'p str,
    power: u32,
    _phantom: PhantomData<&'ui Ui<'ui>>,
}

impl<'ui, 'p> View for DragFloat<'ui, 'p> {
    type V = DragFloatCall<'p>;

    /// The call that the builder stands for.
    closed spec fn view(&self) -> DragFloatCall<'p> {
        DragFloatCall {
            label: self.label,
            value: self.value,
            speed: self.speed,
            min: self.min,
            max: self.max,
            display_format: self.display_format,
            power: self.power,
        }
    }
}

impl<'ui, 'p> DragFloat<'ui, 'p> {
    /// A builder with the defaults of the native widget: speed one, no
    /// limits, power one. It borrows the value until the call is made.
    pub fn new(_ui: &Ui<'ui>, label: &'p str, value: &'p mut u32) -> (r: Self)
        ensures
            r@ == (DragFloatCall {
                label,
                value: r@.value,
                speed: F32_ONE,
                min: F32_ZERO,
                max: F32_ZERO,
                display_format: "%.3f",
                power: F32_ONE,
            }),
            *r@.value == *old(value),
            *final(r@.value) == *final(value),
    {
        DragFloat {
            label,
            value,
            speed: F32_ONE,
            min: F32_ZERO,
            max: F32_ZERO,
            display_format: "%.3f",
            power: F32_ONE,
            _phantom: PhantomData,
        }
    }

    /// Sets the format under which the value is shown.
    #[inline]
    pub fn display_format(self, value: &'p str) -> (r: Self)
        ensures
            r@ == (DragFloatCall { display_format: value, ..self@ }),
    {
        DragFloat { display_format: value, ..self }
    }

    /// Sets the lower limit.
    #[inline]
    pub fn min(self, value: u32) -> (r: Self)
        ensures
            r@ == (DragFloatCall { min: value, ..self@ }),
    {
        DragFloat { min: value, ..self }
    }

    /// Sets the upper limit.
    #[inline]
    pub fn max(self, value: u32) -> (r: Self)
        ensures
            r@ == (DragFloatCall { max: value, ..self@ }),
    {
        DragFloat { max: value, ..self }
    }

    /// Sets the change per pixel dragged.
    #[inline]
    pub fn speed(self, value: u32) -> (r: Self)
        ensures
            r@ == (DragFloatCall { speed: value, ..self@ }),
    {
        DragFloat { speed: value, ..self }
    }

    /// Sets the exponent of the drag curve.
    #[inline]
    pub fn power(self, value: u32) -> (r: Self)
        ensures
            r@ == (DragFloatCall { power: value, ..self@ }),
    {
        DragFloat { power: value, ..self }
    }

    /// Hands over the call that was gathered. The widget's value is the
    /// very place that the builder borrowed.
    pub fn build(self) -> (r: DragFloatCall<'p>)
        ensures
            r == (DragFloatCall { value: r.value, ..self@ }),
            *r.value == *self@.value,
            *final(r.value) == *final(self@.value),
    {
        DragFloatCall {
            label: self.label,
            value: self.value,
            speed: self.speed,
            min: self.min,
            max: self.max,
            display_format: self.display_format,
            power: self.power,
        }
    }
}

/// The native call of a drag widget on `N` single-precision numbers.
pub struct DragFloatNCall<'p, const N: usize> {
    pub label: &'p str,
    /// The values, changed in place by the widget.
    pub value: &'p mut [u32; N],
    /// Change per pixel dragged, as single-precision bits.
    pub speed: u32,
    /// Lower limit; no limit applies where `min` is not below `max`.
    pub min: u32,
    /// Upper limit.
    pub max: u32,
    /// The format under which the value is shown.
    pub display_format: &'p str,
    /// Exponent of the drag curve, as single-precision bits.
    pub power: u32,
}

/// Builder of a drag widget on `N` single-precision numbers.
#[must_use]
pub struct DragFloatN<'ui, 'p, const N: usize> {
    label: &'p str,
    value: &'p mut [u32; N],
    speed: u32,
    min: u32,
    max: u32,
    display_format: &'p str,
    power: u32,
    _phantom: PhantomData<&'ui Ui<'ui>>,
}

impl<'ui, 'p, const N: usize> View for DragFloatN<'ui, 'p, N> {
    type V = DragFloatNCall<'p, N>;

    /// The call that the builder stands for.
    closed spec fn view(&self) -> DragFloatNCall<'p, N> {
        DragFloatNCall {
            label: self.label,
            value: self.value,
            speed: self.speed,
            min: self.min,
            max: self.max,
            display_format: self.display_format,
            power: self.power,
        }
    }
}

impl<'ui, 'p, const N: usize> DragFloatN<'ui, 'p, N> {
    /// A builder with the defaults of the native widget: speed one, no
    /// limits, power one. It borrows the values until the call is made.
    pub fn new(_ui: &Ui<'ui>, label: &'p str, value: &'p mut [u32; N]) -> (r: Self)
        ensures
            r@ == (DragFloatNCall {
                label,
                value: r@.value,
                speed: F32_ONE,
                min: F32_ZERO,
                max: F32_ZERO,
                display_format: "%.3f",
                power: F32_ONE,
            }),
            *r@.value == *old(value),
            *final(r@.value) == *final(value),
    {
        DragFloatN {
            label,
            value,
            speed: F32_ONE,
            min: F32_ZERO,
            max: F32_ZERO,
            display_format: "%.3f",
            power: F32_ONE,
            _phantom: PhantomData,
        }
    }

    /// Sets the format under which the value is shown.
    #[inline]
    pub fn display_format(self, value: &'p str) -> (r: Self)
        ensures
            r@ == (DragFloatNCall { display_format: value, ..self@ }),
    {
        DragFloatN { display_format: value, ..self }
    }

    /// Sets the lower limit.
    #[inline]
    pub fn min(self, value: u32) -> (r: Self)
        ensures
            r@ == (DragFloatNCall { min: value, ..self@ }),
    {
        DragFloatN { min: value, ..self }
    }

    /// Sets the upper limit.
    #[inline]
    pub fn max(self, value: u32) -> (r: Self)
        ensures
            r@ == (DragFloatNCall { max: value, ..self@ }),
    {
        DragFloatN { max: value, ..self }
    }

    /// Sets the change per pixel dragged.
    #[inline]
    pub fn speed(self, value: u32) -> (r: Self)
        ensures
            r@ == (DragFloatNCall { speed: value, ..self@ }),
    {
        DragFloatN { speed: value, ..self }
    }

    /// Sets the exponent of the drag curve.
    #[inline]
    pub fn power(self, value: u32) -> (r: Self)
        ensures
            r@ == (DragFloatNCall { power: value, ..self@ }),
    {
        DragFloatN { power: value, ..self }
    }

    /// Hands over the call that was gathered. The widget's values are the
    /// very places that the builder borrowed.
    pub fn build(self) -> (r: DragFloatNCall<'p, N>)
        ensures
            r == (DragFloatNCall { value: r.value, ..self@ }),
            *r.value == *self@.value,
            *final(r.value) == *final(self@.value),
    {
        DragFloatNCall {
            label: self.label,
            value: self.value,
            speed: self.speed,
            min: self.min,
            max: self.max,
            display_format: self.display_format,
            power: self.power,
        }
    }
}

/// Drag widget on two single-precision numbers.
pub type DragFloat2<'ui, 'p> = DragFloatN<'ui, 'p, 2>;

/// Drag widget on three single-precision numbers.
pub type DragFloat3<'ui, 'p> = DragFloatN<'ui, 'p, 3>;

/// Drag widget on four single-precision numbers.
pub type DragFloat4<'ui, 'p> = DragFloatN<'ui, 'p, 4>;

/// The native call of a drag widget on a range of single-precision numbers.
pub struct DragFloatRange2Call<'p> {
    pub label: &'p str,
    /// The lower end, changed in place by the widget.
    pub current_min: &'p mut u32,
    /// The upper end, changed in place by the widget.
    pub current_max: &'p mut u32,
    /// Change per pixel dragged, as single-precision bits.
    pub speed: u32,
    /// Lower limit; no limit applies where `min` is not below `max`.
    pub min: u32,
    /// Upper limit.
    pub max: u32,
    /// The format under which the value is shown.
    pub display_format: &'p str,
    /// The format of the upper end, where it differs.
    pub display_format_max: Option<&'p str>,
    /// Exponent of the drag curve, as single-precision bits.
    pub power: u32,
}

/// Builder of a drag widget on a range of single-precision numbers.
#[must_use]
pub struct DragFloatRange2<'ui, 'p> {
    label: &'p str,
    current_min: &'p mut u32,
    current_max: &'p mut u32,
    speed: u32,
    min: u32,
    max: u32,
    display_format: &'p str,
    display_format_max: Option<&'p str>,
    power: u32,
    _phantom: PhantomData<&'ui Ui<'ui>>,
}

impl<'ui, 'p> View for DragFloatRange2<'ui, 'p> {
    type V = DragFloatRange2Call<'p>;

    /// The call that the builder stands for.
    closed spec fn view(&self) -> DragFloatRange2Call<'p> {
        DragFloatRange2Call {
            label: self.label,
            current_min: self.current_min,
            current_max: self.current_max,
            speed: self.speed,
            min: self.min,
            max: self.max,
            display_format: self.display_format,
            display_format_max: self.display_format_max,
            power: self.power,
        }
    }
}

impl<'ui, 'p> DragFloatRange2<'ui, 'p> {
    /// A builder with the defaults of the native widget: speed one, no
    /// limits, power one. It borrows the two ends until the call is made.
    pub fn new(
        _ui: &Ui<'ui>,
        label: &'p str,
        current_min: &'p mut u32,
        current_max: &'p mut u32,
    ) -> (r: Self)
        ensures
            r@ == (DragFloatRange2Call {
                label,
                current_min: r@.current_min,
                current_max: r@.current_max,
                speed: F32_ONE,
                min: F32_ZERO,
                max: F32_ZERO,
                display_format: "%.3f",
                display_format_max: None,
                power: F32_ONE,
            }),
            *r@.current_min == *old(current_min),
            *final(r@.current_min) == *final(current_min),
            *r@.current_max == *old(current_max),
            *final(r@.current_max) == *final(current_max),
    {
        DragFloatRange2 {
            label,
            current_min,
            current_max,
            speed: F32_ONE,
            min: F32_ZERO,
            max: F32_ZERO,
            display_format: "%.3f",
            display_format_max: None,
            power: F32_ONE,
            _phantom: PhantomData,
        }
    }

    /// Sets the format under which the value is shown.
    #[inline]
    pub fn display_format(self, value: &'p str) -> (r: Self)
        ensures
            r@ == (DragFloatRange2Call { display_format: value, ..self@ }),
    {
        DragFloatRange2 { display_format: value, ..self }
    }

    /// Sets the format of the upper end, or leaves it to the native default.
    #[inline]
    pub fn display_format_max(self, value: Option<&'p str>) -> (r: Self)
        ensures
            r@ == (DragFloatRange2Call { display_format_max: value, ..self@ }),
    {
        DragFloatRange2 { display_format_max: value, ..self }
    }

    /// Sets the lower limit.
    #[inline]
    pub fn min(self, value: u32) -> (r: Self)
        ensures
            r@ == (DragFloatRange2Call { min: value, ..self@ }),
    {
        DragFloatRange2 { min: value, ..self }
    }

    /// Sets the upper limit.
    #[inline]
    pub fn max(self, value: u32) -> (r: Self)
        ensures
            r@ == (DragFloatRange2Call { max: value, ..self@ }),
    {
        DragFloatRange2 { max: value, ..self }
    }

    /// Sets the change per pixel dragged.
    #[inline]
    pub fn speed(self, value: u32) -> (r: Self)
        ensures
            r@ == (DragFloatRange2Call { speed: value, ..self@ }),
    {
        DragFloatRange2 { speed: value, ..self }
    }

    /// Sets the exponent of the drag curve.
    #[inline]
    pub fn power(self, value: u32) -> (r: Self)
        ensures
            r@ == (DragFloatRange2Call { power: value, ..self@ }),
    {
        DragFloatRange2 { power: value, ..self }
    }

    /// Hands over the call that was gathered. The widget's ends are the
    /// very places that the builder borrowed.
    pub fn build(self) -> (r: DragFloatRange2Call<'p>)
        ensures
            r == (DragFloatRange2Call {
                current_min: r.current_min,
                current_max: r.current_max,
                ..self@
            }),
            *r.current_min == *self@.current_min,
            *final(r.current_min) == *final(self@.current_min),
            *r.current_max == *self@.current_max,
            *final(r.current_max) == *final(self@.current_max),
    {
        DragFloatRange2Call {
            label: self.label,
            current_min: self.current_min,
            current_max: self.current_max,
            speed: self.speed,
            min: self.min,
            max: self.max,
            display_format: self.display_format,
            display_format_max: self.display_format_max,
            power: self.power,
        }
    }
}

/// The native call of a drag widget on one integer.
pub struct DragIntCall<'p> {
    pub label: &'p str,
    /// The value, changed in place by the widget.
    pub value: &'p mut i32,
    /// Change per pixel dragged, as single-precision bits.
    pub speed: u32,
    /// Lower limit; no limit applies where `min` is not below `max`.
    pub min: i32,
    /// Upper limit.
    pub max: i32,
    /// The format under which the value is shown.
    pub display_format: &'p str,
}

/// Builder of a drag widget on one integer.
#[must_use]
pub struct DragInt<'ui, 'p> {
    label: &'p str,
    value: &'p mut i32,
    speed: u32,
    min: i32,
    max: i32,
    display_format: &'p str,
    _phantom: PhantomData<&'ui Ui<'ui>>,
}

impl<'ui, 'p> View for DragInt<'ui, 'p> {
    type V = DragIntCall<'p>;

    /// The call that the builder stands for.
    closed spec fn view(&self) -> DragIntCall<'p> {
        DragIntCall {
            label: self.label,
            value: self.value,
            speed: self.speed,
            min: self.min,
            max: self.max,
            display_format: self.display_format,
        }
    }
}

impl<'ui, 'p> DragInt<'ui, 'p> {
    /// A builder with the defaults of the native widget: speed one, no
    /// limits. It borrows the value until the call is made.
    pub fn new(_ui: &Ui<'ui>, label: &'p str, value: &'p mut i32) -> (r: Self)
        ensures
            r@ == (DragIntCall {
                label,
                value: r@.value,
                speed: F32_ONE,
                min: 0,
                max: 0,
                display_format: "%.0f",
            }),
            *r@.value == *old(value),
            *final(r@.value) == *final(value),
    {
        DragInt {
            label,
            value,
            speed: F32_ONE,
            min: 0,
            max: 0,
            display_format: "%.0f",
            _phantom: PhantomData,
        }
    }

    /// Sets the format under which the value is shown.
    #[inline]
    pub fn display_format(self, value: &'p str) -> (r: Self)
        ensures
            r@ == (DragIntCall { display_format: value, ..self@ }),
    {
        DragInt { display_format: value, ..self }
    }

    /// Sets the lower limit.
    #[inline]
    pub fn min(self, value: i32) -> (r: Self)
        ensures
            r@ == (DragIntCall { min: value, ..self@ }),
    {
        DragInt { min: value, ..self }
    }

    /// Sets the upper limit.
    #[inline]
    pub fn max(self, value: i32) -> (r: Self)
        ensures
            r@ == (DragIntCall { max: value, ..self@ }),
    {
        DragInt { max: value, ..self }
    }

    /// Sets the change per pixel dragged.
    #[inline]
    pub fn speed(self, value: u32) -> (r: Self)
        ensures
            r@ == (DragIntCall { speed: value, ..self@ }),
    {
        DragInt { speed: value, ..self }
    }

    /// Hands over the call that was gathered. The widget's value is the
    /// very place that the builder borrowed.
    pub fn build(self) -> (r: DragIntCall<'p>)
        ensures
            r == (DragIntCall { value: r.value, ..self@ }),
            *r.value == *self@.value,
            *final(r.value) == *final(self@.value),
    {
        DragIntCall {
            label: self.label,
            value: self.value,
            speed: self.speed,
            min: self.min,
            max: self.max,
            display_format: self.display_format,
        }
    }
}

/// The native call of a drag widget on `N` integers.
pub struct DragIntNCall<'p, const N: usize> {
    pub label: &'p str,
    /// The values, changed in place by the widget.
    pub value: &'p mut [i32; N],
    /// Change per pixel dragged, as single-precision bits.
    pub speed: u32,
    /// Lower limit; no limit applies where `min` is not below `max`.
    pub min: i32,
    /// Upper limit.
    pub max: i32,
    /// The format under which the value is shown.
    pub display_format: &'p str,
}

/// Builder of a drag widget on `N` integers.
#[must_use]
pub struct DragIntN<'ui, 'p, const N: usize> {
    label: &'p str,
    value: &'p mut [i32; N],
    speed: u32,
    min: i32,
    max: i32,
    display_format: &'p str,
    _phantom: PhantomData<&'ui Ui<'ui>>,
}

impl<'ui, 'p, const N: usize> View for DragIntN<'ui, 'p, N> {
    type V = DragIntNCall<'p, N>;

    /// The call that the builder stands for.
    closed spec fn view(&self) -> DragIntNCall<'p, N> {
        DragIntNCall {
            label: self.label,
            value: self.value,
            speed: self.speed,
            min: self.min,
            max: self.max,
            display_format: self.display_format,
        }
    }
}

impl<'ui, 'p, const N: usize> DragIntN<'ui, 'p, N> {
    /// A builder with the defaults of the native widget: speed one, no
    /// limits. It borrows the values until the call is made.
    pub fn new(_ui: &Ui<'ui>, label: &'p str, value: &'p mut [i32; N]) -> (r: Self)
        ensures
            r@ == (DragIntNCall {
                label,
                value: r@.value,
                speed: F32_ONE,
                min: 0,
                max: 0,
                display_format: "%.0f",
            }),
            *r@.value == *old(value),
            *final(r@.value) == *final(value),
    {
        DragIntN {
            label,
            value,
            speed: F32_ONE,
            min: 0,
            max: 0,
            display_format: "%.0f",
            _phantom: PhantomData,
        }
    }

    /// Sets the format under which the value is shown.
    #[inline]
    pub fn display_format(self, value: &'p str) -> (r: Self)
        ensures
            r@ == (DragIntNCall { display_format: value, ..self@ }),
    {
        DragIntN { display_format: value, ..self }
    }

    /// Sets the lower limit.
    #[inline]
    pub fn min(self, value: i32) -> (r: Self)
        ensures
            r@ == (DragIntNCall { min: value, ..self@ }),
    {
        DragIntN { min: value, ..self }
    }

    /// Sets the upper limit.
    #[inline]
    pub fn max(self, value: i32) -> (r: Self)
        ensures
            r@ == (DragIntNCall { max: value, ..self@ }),
    {
        DragIntN { max: value, ..self }
    }

    /// Sets the change per pixel dragged.
    #[inline]
    pub fn speed(self, value: u32) -> (r: Self)
        ensures
            r@ == (DragIntNCall { speed: value, ..self@ }),
    {
        DragIntN { speed: value, ..self }
    }

    /// Hands over the call that was gathered. The widget's values are the
    /// very places that the builder borrowed.
    pub fn build(self) -> (r: DragIntNCall<'p, N>)
        ensures
            r == (DragIntNCall { value: r.value, ..self@ }),
            *r.value == *self@.value,
            *final(r.value) == *final(self@.value),
    {
        DragIntNCall {
            label: self.label,
            value: self.value,
            speed: self.speed,
            min: self.min,
            max: self.max,
            display_format: self.display_format,
        }
    }
}

/// Drag widget on two integers.
pub type DragInt2<'ui, 'p> = DragIntN<'ui, 'p, 2>;

/// Drag widget on three integers.
pub type DragInt3<'ui, 'p> = DragIntN<'ui, 'p, 3>;

/// Drag widget on four integers.
pub type DragInt4<'ui, 'p> = DragIntN<'ui, 'p, 4>;

/// The native call of a drag widget on a range of integers.
pub struct DragIntRange2Call<'p> {
    pub label: &'p str,
    /// The lower end, changed in place by the widget.
    pub current_min: &'p mut i32,
    /// The upper end, changed in place by the widget.
    pub current_max: &'p mut i32,
    /// Change per pixel dragged, as single-precision bits.
    pub speed: u32,
    /// Lower limit; no limit applies where `min` is not below `max`.
    pub min: i32,
    /// Upper limit.
    pub max: i32,
    /// The format under which the value is shown.
    pub display_format: &'p str,
    /// The format of the upper end, where it differs.
    pub display_format_max: Option<&'p str>,
}

/// Builder of a drag widget on a range of integers.
#[must_use]
pub struct DragIntRange2<'ui, 'p> {
    label: &'p str,
    current_min: &'p mut i32,
    current_max: &'p mut i32,
    speed: u32,
    min: i32,
    max: i32,
    display_format: &'p str,
    display_format_max: Option<&'p str>,
    _phantom: PhantomData<&'ui Ui<'ui>>,
}

impl<'ui, 'p> View for DragIntRange2<'ui, 'p> {
    type V = DragIntRange2Call<'p>;

    /// The call that the builder stands for.
    closed spec fn view(&self) -> DragIntRange2Call<'p> {
        DragIntRange2Call {
            label: self.label,
            current_min: self.current_min,
            current_max: self.current_max,
            speed: self.speed,
            min: self.min,
            max: self.max,
            display_format: self.display_format,
            display_format_max: self.display_format_max,
        }
    }
}

impl<'ui, 'p> DragIntRange2<'ui, 'p> {
    /// A builder with the defaults of the native widget: speed one, no
    /// limits. It borrows the two ends until the call is made.
    pub fn new(
        _ui: &Ui<'ui>,
        label: &'p str,
        current_min: &'p mut i32,
        current_max: &'p mut i32,
    ) -> (r: Self)
        ensures
            r@ == (DragIntRange2Call {
                label,
                current_min: r@.current_min,
                current_max: r@.current_max,
                speed: F32_ONE,
                min: 0,
                max: 0,
                display_format: "%.0f",
                display_format_max: None,
            }),
            *r@.current_min == *old(current_min),
            *final(r@.current_min) == *final(current_min),
            *r@.current_max == *old(current_max),
            *final(r@.current_max) == *final(current_max),
    {
        DragIntRange2 {
            label,
            current_min,
            current_max,
            speed: F32_ONE,
            min: 0,
            max: 0,
            display_format: "%.0f",
            display_format_max: None,
            _phantom: PhantomData,
        }
    }

    /// Sets the format under which the value is shown.
    #[inline]
    pub fn display_format(self, value: &'p str) -> (r: Self)
        ensures
            r@ == (DragIntRange2Call { display_format: value, ..self@ }),
    {
        DragIntRange2 { display_format: value, ..self }
    }

    /// Sets the format of the upper end, or leaves it to the native default.
    #[inline]
    pub fn display_format_max(self, value: Option<&'p str>) -> (r: Self)
        ensures
            r@ == (DragIntRange2Call { display_format_max: value, ..self@ }),
    {
        DragIntRange2 { display_format_max: value, ..self }
    }

    /// Sets the lower limit.
    #[inline]
    pub fn min(self, value: i32) -> (r: Self)
        ensures
            r@ == (DragIntRange2Call { min: value, ..self@ }),
    {
        DragIntRange2 { min: value, ..self }
    }

    /// Sets the upper limit.
    #[inline]
    pub fn max(self, value: i32) -> (r: Self)
        ensures
            r@ == (DragIntRange2Call { max: value, ..self@ }),
    {
        DragIntRange2 { max: value, ..self }
    }

    /// Sets the change per pixel dragged.
    #[inline]
    pub fn speed(self, value: u32) -> (r: Self)
        ensures
            r@ == (DragIntRange2Call { speed: value, ..self@ }),
    {
        DragIntRange2 { speed: value, ..self }
    }

    /// Hands over the call that was gathered. The widget's ends are the
    /// very places that the builder borrowed.
    pub fn build(self) -> (r: DragIntRange2Call<'p>)
        ensures
            r == (DragIntRange2Call {
                current_min: r.current_min,
                current_max: r.current_max,
                ..self@
            }),
            *r.current_min == *self@.current_min,
            *final(r.current_min) == *final(self@.current_min),
            *r.current_max == *self@.current_max,
            *final(r.current_max) == *final(self@.current_max),
    {
        DragIntRange2Call {
            label: self.label,
            current_min: self.current_min,
            current_max: self.current_max,
            speed: self.speed,
            min: self.min,
            max: self.max,
            display_format: self.display_format,
            display_format_max: self.display_format_max,
        }
    }
}

} // verus!
