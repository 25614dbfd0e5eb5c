//! Options of the text and number inputs, and the native calls that they
//! lead to.

use vstd::prelude::*;
use crate::context::Ui;
use crate::flags::{
    lemma_input_text_flags_defined, with_bits, within, ImGuiInputTextFlags,
    ImGuiInputTextFlags_All, ImGuiInputTextFlags_AllowTabInput,
    ImGuiInputTextFlags_AlwaysInsertMode, ImGuiInputTextFlags_AutoSelectAll,
    ImGuiInputTextFlags_CallbackAlways, ImGuiInputTextFlags_CallbackCharFilter,
    ImGuiInputTextFlags_CallbackCompletion, ImGuiInputTextFlags_CallbackHistory,
    ImGuiInputTextFlags_CharsDecimal, ImGuiInputTextFlags_CharsHexadecimal,
    ImGuiInputTextFlags_CharsNoBlank, ImGuiInputTextFlags_CharsUppercase,
    ImGuiInputTextFlags_EnterReturnsTrue, ImGuiInputTextFlags_NoHorizontalScroll,
};
use crate::geometry::F32_ZERO;

verus! {

/// The native call of a text input.
pub struct InputTextCall<'p> {
    pub label: &'p str,
    /// The text, edited in place within its length.
    pub buf: &'p mut str,
    pub flags: ImGuiInputTextFlags,
}

/// The native call of an input of one integer.
pub struct InputIntCall<'p> {
    pub label: &'p str,
    /// The value, changed in place.
    pub value: &'p mut i32,
    pub step: i32,
    pub step_fast: i32,
    pub flags: ImGuiInputTextFlags,
}

/// The native call of an input of `N` integers, which has no step buttons.
pub struct InputIntNCall<'p, const N: usize> {
    pub label: &'p str,
    /// The values, changed in place.
    pub value: &'p mut [i32; N],
    pub flags: ImGuiInputTextFlags,
}

/// The native call of an input of one single-precision number.
pub struct InputFloatCall<'p> {
    pub label: &'p str,
    /// The value, as single-precision bits, changed in place.
    pub value: &'p mut u32,
    pub step: u32,
    pub step_fast: u32,
    pub decimal_precision: i32,
    pub flags: ImGuiInputTextFlags,
}

/// The native call of an input of `N` single-precision numbers, which has no
/// step buttons.
pub struct InputFloatNCall<'p, const N: usize> {
    pub label: &'p str,
    /// The values, as single-precision bits, changed in place.
    pub value: &'p mut [u32; N],
    pub decimal_precision: i32,
    pub flags: ImGuiInputTextFlags,
}

/// Options of a text input.
#[must_use]
pub struct InputTextOptions {
    flags: ImGuiInputTextFlags,
}

/// The mathematical content of [`InputTextOptions`].
pub ghost struct InputTextOptionsView {
    pub flags: ImGuiInputTextFlags,
}

impl View for InputTextOptions {
    type V = InputTextOptionsView;

    closed spec fn view(&self) -> InputTextOptionsView {
        InputTextOptionsView { flags: self.flags }
    }
}

impl InputTextOptionsView {
    /// The options with the input flag `flag` switched on or off.
    pub open spec fn with_flag(self, flag: i32, value: bool) -> Self {
        InputTextOptionsView {
            flags: self.flags.spec_with(ImGuiInputTextFlags::spec_from_bits_truncate(flag), value),
            ..self
        }
    }
}

impl InputTextOptions {
    fn flag(&mut self, flag: i32, value: bool) -> (r: &mut Self)
        requires
            within(flag, ImGuiInputTextFlags_All),
        ensures
            r@ == old(self)@.with_flag(flag, value),
            r@.flags@ == with_bits(old(self)@.flags@, flag, value),
            *final(self) == *final(r),
    {
        self.flags = self.flags.with(ImGuiInputTextFlags::from_bits_truncate(flag), value);
        self
    }

    /// Options with no flag switched on.
    pub fn new() -> (r: Self)
        ensures
            r@ == (InputTextOptionsView {
                flags: ImGuiInputTextFlags::spec_from_bits_truncate(0),
            }),
            r@.flags@ == 0,
    {
        InputTextOptions { flags: ImGuiInputTextFlags::empty() }
    }

    /// Replaces the whole flag set.
    #[inline]
    pub fn flags(&mut self, flags: ImGuiInputTextFlags) -> (r: &mut Self)
        ensures
            r@ == (InputTextOptionsView { flags: flags, ..old(self)@ }),
            *final(self) == *final(r),
    {
        self.flags = flags;
        self
    }

    /// Accepts only `0123456789.+-*/`, or lifts that limit.
    #[inline]
    pub fn chars_decimal(&mut self, value: bool) -> (r: &mut Self)
        ensures
            r@ == old(self)@.with_flag(ImGuiInputTextFlags_CharsDecimal, value),
            r@.flags@ == with_bits(old(self)@.flags@, ImGuiInputTextFlags_CharsDecimal, value),
            *final(self) == *final(r),
    {
        proof {
            lemma_input_text_flags_defined();
        }
        self.flag(ImGuiInputTextFlags_CharsDecimal, value)
    }

    /// Accepts only `0123456789ABCDEFabcdef`, or lifts that limit.
    #[inline]
    pub fn chars_hexadecimal(&mut self, value: bool) -> (r: &mut Self)
        ensures
            r@ == old(self)@.with_flag(ImGuiInputTextFlags_CharsHexadecimal, value),
            r@.flags@ == with_bits(old(self)@.flags@, ImGuiInputTextFlags_CharsHexadecimal, value),
            *final(self) == *final(r),
    {
        proof {
            lemma_input_text_flags_defined();
        }
        self.flag(ImGuiInputTextFlags_CharsHexadecimal, value)
    }

    /// Turns `a..z` into `A..Z`, or not.
    #[inline]
    pub fn chars_uppercase(&mut self, value: bool) -> (r: &mut Self)
        ensures
            r@ == old(self)@.with_flag(ImGuiInputTextFlags_CharsUppercase, value),
            r@.flags@ == with_bits(old(self)@.flags@, ImGuiInputTextFlags_CharsUppercase, value),
            *final(self) == *final(r),
    {
        proof {
            lemma_input_text_flags_defined();
        }
        self.flag(ImGuiInputTextFlags_CharsUppercase, value)
    }

    /// Filters out spaces and tabs, or not.
    #[inline]
    pub fn chars_noblank(&mut self, value: bool) -> (r: &mut Self)
        ensures
            r@ == old(self)@.with_flag(ImGuiInputTextFlags_CharsNoBlank, value),
            r@.flags@ == with_bits(old(self)@.flags@, ImGuiInputTextFlags_CharsNoBlank, value),
            *final(self) == *final(r),
    {
        proof {
            lemma_input_text_flags_defined();
        }
        self.flag(ImGuiInputTextFlags_CharsNoBlank, value)
    }

    /// Selects the whole text when the input first takes the focus, or not.
    #[inline]
    pub fn auto_select_all(&mut self, value: bool) -> (r: &mut Self)
        ensures
            r@ == old(self)@.with_flag(ImGuiInputTextFlags_AutoSelectAll, value),
            r@.flags@ == with_bits(old(self)@.flags@, ImGuiInputTextFlags_AutoSelectAll, value),
            *final(self) == *final(r),
    {
        proof {
            lemma_input_text_flags_defined();
        }
        self.flag(ImGuiInputTextFlags_AutoSelectAll, value)
    }

    /// Reports a change only when Enter is pressed, or on every change.
    #[inline]
    pub fn enter_returns_true(&mut self, value: bool) -> (r: &mut Self)
        ensures
            r@ == old(self)@.with_flag(ImGuiInputTextFlags_EnterReturnsTrue, value),
            r@.flags@ == with_bits(old(self)@.flags@, ImGuiInputTextFlags_EnterReturnsTrue, value),
            *final(self) == *final(r),
    {
        proof {
            lemma_input_text_flags_defined();
        }
        self.flag(ImGuiInputTextFlags_EnterReturnsTrue, value)
    }

    /// Calls back on Tab, for completion, or not.
    #[inline]
    pub fn callback_completion(&mut self, value: bool) -> (r: &mut Self)
        ensures
            r@ == old(self)@.with_flag(ImGuiInputTextFlags_CallbackCompletion, value),
            r@.flags@ == with_bits(
                old(self)@.flags@,
                ImGuiInputTextFlags_CallbackCompletion,
                value,
            ),
            *final(self) == *final(r),
    {
        proof {
            lemma_input_text_flags_defined();
        }
        self.flag(ImGuiInputTextFlags_CallbackCompletion, value)
    }

    /// Calls back on the up and down arrows, for history, or not.
    #[inline]
    pub fn callback_history(&mut self, value: bool) -> (r: &mut Self)
        ensures
            r@ == old(self)@.with_flag(ImGuiInputTextFlags_CallbackHistory, value),
            r@.flags@ == with_bits(old(self)@.flags@, ImGuiInputTextFlags_CallbackHistory, value),
            *final(self) == *final(r),
    {
        proof {
            lemma_input_text_flags_defined();
        }
        self.flag(ImGuiInputTextFlags_CallbackHistory, value)
    }

    /// Calls back on every iteration, or not.
    #[inline]
    pub fn callback_always(&mut self, value: bool) -> (r: &mut Self)
        ensures
            r@ == old(self)@.with_flag(ImGuiInputTextFlags_CallbackAlways, value),
            r@.flags@ == with_bits(old(self)@.flags@, ImGuiInputTextFlags_CallbackAlways, value),
            *final(self) == *final(r),
    {
        proof {
            lemma_input_text_flags_defined();
        }
        self.flag(ImGuiInputTextFlags_CallbackAlways, value)
    }

    /// Calls back on every character, to filter it, or not.
    #[inline]
    pub fn callback_char_filter(&mut self, value: bool) -> (r: &mut Self)
        ensures
            r@ == old(self)@.with_flag(ImGuiInputTextFlags_CallbackCharFilter, value),
            r@.flags@ == with_bits(
                old(self)@.flags@,
                ImGuiInputTextFlags_CallbackCharFilter,
                value,
            ),
            *final(self) == *final(r),
    {
        proof {
            lemma_input_text_flags_defined();
        }
        self.flag(ImGuiInputTextFlags_CallbackCharFilter, value)
    }

    /// Lets Tab insert a tab character, or not.
    #[inline]
    pub fn allow_tab_input(&mut self, value: bool) -> (r: &mut Self)
        ensures
            r@ == old(self)@.with_flag(ImGuiInputTextFlags_AllowTabInput, value),
            r@.flags@ == with_bits(old(self)@.flags@, ImGuiInputTextFlags_AllowTabInput, value),
            *final(self) == *final(r),
    {
        proof {
            lemma_input_text_flags_defined();
        }
        self.flag(ImGuiInputTextFlags_AllowTabInput, value)
    }

    /// Keeps the text from following the cursor sideways, or not.
    #[inline]
    pub fn no_horizontal_scroll(&mut self, value: bool) -> (r: &mut Self)
        ensures
            r@ == old(self)@.with_flag(ImGuiInputTextFlags_NoHorizontalScroll, value),
            r@.flags@ == with_bits(
                old(self)@.flags@,
                ImGuiInputTextFlags_NoHorizontalScroll,
                value,
            ),
            *final(self) == *final(r),
    {
        proof {
            lemma_input_text_flags_defined();
        }
        self.flag(ImGuiInputTextFlags_NoHorizontalScroll, value)
    }

    /// Stays in insert mode, or not.
    #[inline]
    pub fn always_insert_mode(&mut self, value: bool) -> (r: &mut Self)
        ensures
            r@ == old(self)@.with_flag(ImGuiInputTextFlags_AlwaysInsertMode, value),
            r@.flags@ == with_bits(old(self)@.flags@, ImGuiInputTextFlags_AlwaysInsertMode, value),
            *final(self) == *final(r),
    {
        proof {
            lemma_input_text_flags_defined();
        }
        self.flag(ImGuiInputTextFlags_AlwaysInsertMode, value)
    }

    /// The call of a text input on `buf` under these options.
    pub fn input_text<'ui, 'p>(
        &self,
        _ui: &'ui Ui,
        label: &'p str,
        buf: &'p mut str,
    ) -> (r: InputTextCall<'p>)
        ensures
            r == (InputTextCall { label, buf: r.buf, flags: self@.flags }),
            r.buf@ == old(buf)@,
            final(r.buf)@ == final(buf)@,
    {
        InputTextCall { label, buf, flags: self.flags }
    }
}

/// Options of an integer input.
#[must_use]
pub struct InputIntOptions {
    step: i32,
    step_fast: i32,
    flags: ImGuiInputTextFlags,
}

/// The mathematical content of [`InputIntOptions`].
pub ghost struct InputIntOptionsView {
    /// Change made by the small buttons.
    pub step: i32,
    /// Change made by the small buttons while Ctrl is held.
    pub step_fast: i32,
    pub flags: ImGuiInputTextFlags,
}

impl View for InputIntOptions {
    type V = InputIntOptionsView;

    closed spec fn view(&self) -> InputIntOptionsView {
        InputIntOptionsView {
            step: self.step,
            step_fast: self.step_fast,
            flags: self.flags,
        }
    }
}

impl InputIntOptionsView {
    /// The options with the input flag `flag` switched on or off.
    pub open spec fn with_flag(self, flag: i32, value: bool) -> Self {
        InputIntOptionsView {
            flags: self.flags.spec_with(ImGuiInputTextFlags::spec_from_bits_truncate(flag), value),
            ..self
        }
    }
}

impl InputIntOptions {
    fn flag(&mut self, flag: i32, value: bool) -> (r: &mut Self)
        requires
            within(flag, ImGuiInputTextFlags_All),
        ensures
            r@ == old(self)@.with_flag(flag, value),
            r@.flags@ == with_bits(old(self)@.flags@, flag, value),
            *final(self) == *final(r),
    {
        self.flags = self.flags.with(ImGuiInputTextFlags::from_bits_truncate(flag), value);
        self
    }

    /// Options with a step of one, a fast step of one hundred and no flag
    /// switched on.
    pub fn new() -> (r: Self)
        ensures
            r@ == (InputIntOptionsView {
                step: 1,
                step_fast: 100,
                flags: ImGuiInputTextFlags::spec_from_bits_truncate(0),
            }),
            r@.flags@ == 0,
    {
        InputIntOptions { step: 1, step_fast: 100, flags: ImGuiInputTextFlags::empty() }
    }

    /// Sets the change made by the small buttons.
    #[inline]
    pub fn step(&mut self, value: i32) -> (r: &mut Self)
        ensures
            r@ == (InputIntOptionsView { step: value, ..old(self)@ }),
            *final(self) == *final(r),
    {
        self.step = value;
        self
    }

    /// Sets the change made by the small buttons while Ctrl is held.
    #[inline]
    pub fn step_fast(&mut self, value: i32) -> (r: &mut Self)
        ensures
            r@ == (InputIntOptionsView { step_fast: value, ..old(self)@ }),
            *final(self) == *final(r),
    {
        self.step_fast = value;
        self
    }

    /// Replaces the whole flag set.
    #[inline]
    pub fn flags(&mut self, flags: ImGuiInputTextFlags) -> (r: &mut Self)
        ensures
            r@ == (InputIntOptionsView { flags: flags, ..old(self)@ }),
            *final(self) == *final(r),
    {
        self.flags = flags;
        self
    }

    /// Accepts only `0123456789.+-*/`, or lifts that limit.
    #[inline]
    pub fn chars_decimal(&mut self, value: bool) -> (r: &mut Self)
        ensures
            r@ == old(self)@.with_flag(ImGuiInputTextFlags_CharsDecimal, value),
            r@.flags@ == with_bits(old(self)@.flags@, ImGuiInputTextFlags_CharsDecimal, value),
            *final(self) == *final(r),
    {
        proof {
            lemma_input_text_flags_defined();
        }
        self.flag(ImGuiInputTextFlags_CharsDecimal, value)
    }

    /// Accepts only `0123456789ABCDEFabcdef`, or lifts that limit.
    #[inline]
    pub fn chars_hexadecimal(&mut self, value: bool) -> (r: &mut Self)
        ensures
            r@ == old(self)@.with_flag(ImGuiInputTextFlags_CharsHexadecimal, value),
            r@.flags@ == with_bits(old(self)@.flags@, ImGuiInputTextFlags_CharsHexadecimal, value),
            *final(self) == *final(r),
    {
        proof {
            lemma_input_text_flags_defined();
        }
        self.flag(ImGuiInputTextFlags_CharsHexadecimal, value)
    }

    /// Turns `a..z` into `A..Z`, or not.
    #[inline]
    pub fn chars_uppercase(&mut self, value: bool) -> (r: &mut Self)
        ensures
            r@ == old(self)@.with_flag(ImGuiInputTextFlags_CharsUppercase, value),
            r@.flags@ == with_bits(old(self)@.flags@, ImGuiInputTextFlags_CharsUppercase, value),
            *final(self) == *final(r),
    {
        proof {
            lemma_input_text_flags_defined();
        }
        self.flag(ImGuiInputTextFlags_CharsUppercase, value)
    }

    /// Filters out spaces and tabs, or not.
    #[inline]
    pub fn chars_noblank(&mut self, value: bool) -> (r: &mut Self)
        ensures
            r@ == old(self)@.with_flag(ImGuiInputTextFlags_CharsNoBlank, value),
            r@.flags@ == with_bits(old(self)@.flags@, ImGuiInputTextFlags_CharsNoBlank, value),
            *final(self) == *final(r),
    {
        proof {
            lemma_input_text_flags_defined();
        }
        self.flag(ImGuiInputTextFlags_CharsNoBlank, value)
    }

    /// Selects the whole text when the input first takes the focus, or not.
    #[inline]
    pub fn auto_select_all(&mut self, value: bool) -> (r: &mut Self)
        ensures
            r@ == old(self)@.with_flag(ImGuiInputTextFlags_AutoSelectAll, value),
            r@.flags@ == with_bits(old(self)@.flags@, ImGuiInputTextFlags_AutoSelectAll, value),
            *final(self) == *final(r),
    {
        proof {
            lemma_input_text_flags_defined();
        }
        self.flag(ImGuiInputTextFlags_AutoSelectAll, value)
    }

    /// Reports a change only when Enter is pressed, or on every change.
    #[inline]
    pub fn enter_returns_true(&mut self, value: bool) -> (r: &mut Self)
        ensures
            r@ == old(self)@.with_flag(ImGuiInputTextFlags_EnterReturnsTrue, value),
            r@.flags@ == with_bits(old(self)@.flags@, ImGuiInputTextFlags_EnterReturnsTrue, value),
            *final(self) == *final(r),
    {
        proof {
            lemma_input_text_flags_defined();
        }
        self.flag(ImGuiInputTextFlags_EnterReturnsTrue, value)
    }

    /// Calls back on Tab, for completion, or not.
    #[inline]
    pub fn callback_completion(&mut self, value: bool) -> (r: &mut Self)
        ensures
            r@ == old(self)@.with_flag(ImGuiInputTextFlags_CallbackCompletion, value),
            r@.flags@ == with_bits(
                old(self)@.flags@,
                ImGuiInputTextFlags_CallbackCompletion,
                value,
            ),
            *final(self) == *final(r),
    {
        proof {
            lemma_input_text_flags_defined();
        }
        self.flag(ImGuiInputTextFlags_CallbackCompletion, value)
    }

    /// Calls back on the up and down arrows, for history, or not.
    #[inline]
    pub fn callback_history(&mut self, value: bool) -> (r: &mut Self)
        ensures
            r@ == old(self)@.with_flag(ImGuiInputTextFlags_CallbackHistory, value),
            r@.flags@ == with_bits(old(self)@.flags@, ImGuiInputTextFlags_CallbackHistory, value),
            *final(self) == *final(r),
    {
        proof {
            lemma_input_text_flags_defined();
        }
        self.flag(ImGuiInputTextFlags_CallbackHistory, value)
    }

    /// Calls back on every iteration, or not.
    #[inline]
    pub fn callback_always(&mut self, value: bool) -> (r: &mut Self)
        ensures
            r@ == old(self)@.with_flag(ImGuiInputTextFlags_CallbackAlways, value),
            r@.flags@ == with_bits(old(self)@.flags@, ImGuiInputTextFlags_CallbackAlways, value),
            *final(self) == *final(r),
    {
        proof {
            lemma_input_text_flags_defined();
        }
        self.flag(ImGuiInputTextFlags_CallbackAlways, value)
    }

    /// Calls back on every character, to filter it, or not.
    #[inline]
    pub fn callback_char_filter(&mut self, value: bool) -> (r: &mut Self)
        ensures
            r@ == old(self)@.with_flag(ImGuiInputTextFlags_CallbackCharFilter, value),
            r@.flags@ == with_bits(
                old(self)@.flags@,
                ImGuiInputTextFlags_CallbackCharFilter,
                value,
            ),
            *final(self) == *final(r),
    {
        proof {
            lemma_input_text_flags_defined();
        }
        self.flag(ImGuiInputTextFlags_CallbackCharFilter, value)
    }

    /// Lets Tab insert a tab character, or not.
    #[inline]
    pub fn allow_tab_input(&mut self, value: bool) -> (r: &mut Self)
        ensures
            r@ == old(self)@.with_flag(ImGuiInputTextFlags_AllowTabInput, value),
            r@.flags@ == with_bits(old(self)@.flags@, ImGuiInputTextFlags_AllowTabInput, value),
            *final(self) == *final(r),
    {
        proof {
            lemma_input_text_flags_defined();
        }
        self.flag(ImGuiInputTextFlags_AllowTabInput, value)
    }

    /// Keeps the text from following the cursor sideways, or not.
    #[inline]
    pub fn no_horizontal_scroll(&mut self, value: bool) -> (r: &mut Self)
        ensures
            r@ == old(self)@.with_flag(ImGuiInputTextFlags_NoHorizontalScroll, value),
            r@.flags@ == with_bits(
                old(self)@.flags@,
                ImGuiInputTextFlags_NoHorizontalScroll,
                value,
            ),
            *final(self) == *final(r),
    {
        proof {
            lemma_input_text_flags_defined();
        }
        self.flag(ImGuiInputTextFlags_NoHorizontalScroll, value)
    }

    /// Stays in insert mode, or not.
    #[inline]
    pub fn always_insert_mode(&mut self, value: bool) -> (r: &mut Self)
        ensures
            r@ == old(self)@.with_flag(ImGuiInputTextFlags_AlwaysInsertMode, value),
            r@.flags@ == with_bits(old(self)@.flags@, ImGuiInputTextFlags_AlwaysInsertMode, value),
            *final(self) == *final(r),
    {
        proof {
            lemma_input_text_flags_defined();
        }
        self.flag(ImGuiInputTextFlags_AlwaysInsertMode, value)
    }

    /// The call of an input on `value` under these options.
    pub fn input_int<'ui, 'p>(
        &self,
        _ui: &'ui Ui,
        label: &'p str,
        value: &'p mut i32,
    ) -> (r: InputIntCall<'p>)
        ensures
            r == (InputIntCall {
                label,
                value: r.value,
                step: self@.step,
                step_fast: self@.step_fast,
                flags: self@.flags,
            }),
            *r.value == *old(value),
            *final(r.value) == *final(value),
    {
        InputIntCall {
            label,
            value,
            step: self.step,
            step_fast: self.step_fast,
            flags: self.flags,
        }
    }

    /// The call of an input on two integers under these options.
    pub fn input_int2<'ui, 'p>(
        &self,
        _ui: &'ui Ui,
        label: &'p str,
        value: &'p mut [i32; 2],
    ) -> (r: InputIntNCall<'p, 2>)
        ensures
            r == (InputIntNCall { label, value: r.value, flags: self@.flags }),
            *r.value == *old(value),
            *final(r.value) == *final(value),
    {
        InputIntNCall { label, value, flags: self.flags }
    }

    /// The call of an input on three integers under these options.
    pub fn input_int3<'ui, 'p>(
        &self,
        _ui: &'ui Ui,
        label: &'p str,
        value: &'p mut [i32; 3],
    ) -> (r: InputIntNCall<'p, 3>)
        ensures
            r == (InputIntNCall { label, value: r.value, flags: self@.flags }),
            *r.value == *old(value),
            *final(r.value) == *final(value),
    {
        InputIntNCall { label, value, flags: self.flags }
    }

    /// The call of an input on four integers under these options.
    pub fn input_int4<'ui, 'p>(
        &self,
        _ui: &'ui Ui,
        label: &'p str,
        value: &'p mut [i32; 4],
    ) -> (r: InputIntNCall<'p, 4>)
        ensures
            r == (InputIntNCall { label, value: r.value, flags: self@.flags }),
            *r.value == *old(value),
            *final(r.value) == *final(value),
    {
        InputIntNCall { label, value, flags: self.flags }
    }
}

/// Options of a single-precision input. The steps are single-precision bits.
#[must_use]
pub struct InputFloatOptions {
    step: u32,
    step_fast: u32,
    decimal_precision: i32,
    flags: ImGuiInputTextFlags,
}

/// The mathematical content of [`InputFloatOptions`].
pub ghost struct InputFloatOptionsView {
    /// Change made by the small buttons.
    pub step: u32,
    /// Change made by the small buttons while Ctrl is held.
    pub step_fast: u32,
    /// Digits shown after the point; negative for the native default.
    pub decimal_precision: i32,
    pub flags: ImGuiInputTextFlags,
}

impl View for InputFloatOptions {
    type V = InputFloatOptionsView;

    closed spec fn view(&self) -> InputFloatOptionsView {
        InputFloatOptionsView {
            step: self.step,
            step_fast: self.step_fast,
            decimal_precision: self.decimal_precision,
            flags: self.flags,
        }
    }
}

impl InputFloatOptionsView {
    /// The options with the input flag `flag` switched on or off.
    pub open spec fn with_flag(self, flag: i32, value: bool) -> Self {
        InputFloatOptionsView {
            flags: self.flags.spec_with(ImGuiInputTextFlags::spec_from_bits_truncate(flag), value),
            ..self
        }
    }
}

impl InputFloatOptions {
    fn flag(&mut self, flag: i32, value: bool) -> (r: &mut Self)
        requires
            within(flag, ImGuiInputTextFlags_All),
        ensures
            r@ == old(self)@.with_flag(flag, value),
            r@.flags@ == with_bits(old(self)@.flags@, flag, value),
            *final(self) == *final(r),
    {
        self.flags = self.flags.with(ImGuiInputTextFlags::from_bits_truncate(flag), value);
        self
    }

    /// Options with no step buttons, the native precision and no flag
    /// switched on.
    pub fn new() -> (r: Self)
        ensures
            r@ == (InputFloatOptionsView {
                step: F32_ZERO,
                step_fast: F32_ZERO,
                decimal_precision: -1i32,
                flags: ImGuiInputTextFlags::spec_from_bits_truncate(0),
            }),
            r@.flags@ == 0,
    {
        InputFloatOptions {
            step: F32_ZERO,
            step_fast: F32_ZERO,
            decimal_precision: -1,
            flags: ImGuiInputTextFlags::empty(),
        }
    }

    /// Sets the change made by the small buttons.
    #[inline]
    pub fn step(&mut self, value: u32) -> (r: &mut Self)
        ensures
            r@ == (InputFloatOptionsView { step: value, ..old(self)@ }),
            *final(self) == *final(r),
    {
        self.step = value;
        self
    }

    /// Sets the change made by the small buttons while Ctrl is held.
    #[inline]
    pub fn step_fast(&mut self, value: u32) -> (r: &mut Self)
        ensures
            r@ == (InputFloatOptionsView { step_fast: value, ..old(self)@ }),
            *final(self) == *final(r),
    {
        self.step_fast = value;
        self
    }

    /// Sets the number of digits shown after the point.
    #[inline]
    pub fn decimal_precision(&mut self, value: i32) -> (r: &mut Self)
        ensures
            r@ == (InputFloatOptionsView { decimal_precision: value, ..old(self)@ }),
            *final(self) == *final(r),
    {
        self.decimal_precision = value;
        self
    }

    /// Replaces the whole flag set.
    #[inline]
    pub fn flags(&mut self, flags: ImGuiInputTextFlags) -> (r: &mut Self)
        ensures
            r@ == (InputFloatOptionsView { flags: flags, ..old(self)@ }),
            *final(self) == *final(r),
    {
        self.flags = flags;
        self
    }

    /// Accepts only `0123456789.+-*/`, or lifts that limit.
    #[inline]
    pub fn chars_decimal(&mut self, value: bool) -> (r: &mut Self)
        ensures
            r@ == old(self)@.with_flag(ImGuiInputTextFlags_CharsDecimal, value),
            r@.flags@ == with_bits(old(self)@.flags@, ImGuiInputTextFlags_CharsDecimal, value),
            *final(self) == *final(r),
    {
        proof {
            lemma_input_text_flags_defined();
        }
        self.flag(ImGuiInputTextFlags_CharsDecimal, value)
    }

    /// Accepts only `0123456789ABCDEFabcdef`, or lifts that limit.
    #[inline]
    pub fn chars_hexadecimal(&mut self, value: bool) -> (r: &mut Self)
        ensures
            r@ == old(self)@.with_flag(ImGuiInputTextFlags_CharsHexadecimal, value),
            r@.flags@ == with_bits(old(self)@.flags@, ImGuiInputTextFlags_CharsHexadecimal, value),
            *final(self) == *final(r),
    {
        proof {
            lemma_input_text_flags_defined();
        }
        self.flag(ImGuiInputTextFlags_CharsHexadecimal, value)
    }

    /// Turns `a..z` into `A..Z`, or not.
    #[inline]
    pub fn chars_uppercase(&mut self, value: bool) -> (r: &mut Self)
        ensures
            r@ == old(self)@.with_flag(ImGuiInputTextFlags_CharsUppercase, value),
            r@.flags@ == with_bits(old(self)@.flags@, ImGuiInputTextFlags_CharsUppercase, value),
            *final(self) == *final(r),
    {
        proof {
            lemma_input_text_flags_defined();
        }
        self.flag(ImGuiInputTextFlags_CharsUppercase, value)
    }

    /// Filters out spaces and tabs, or not.
    #[inline]
    pub fn chars_noblank(&mut self, value: bool) -> (r: &mut Self)
        ensures
            r@ == old(self)@.with_flag(ImGuiInputTextFlags_CharsNoBlank, value),
            r@.flags@ == with_bits(old(self)@.flags@, ImGuiInputTextFlags_CharsNoBlank, value),
            *final(self) == *final(r),
    {
        proof {
            lemma_input_text_flags_defined();
        }
        self.flag(ImGuiInputTextFlags_CharsNoBlank, value)
    }

    /// Selects the whole text when the input first takes the focus, or not.
    #[inline]
    pub fn auto_select_all(&mut self, value: bool) -> (r: &mut Self)
        ensures
            r@ == old(self)@.with_flag(ImGuiInputTextFlags_AutoSelectAll, value),
            r@.flags@ == with_bits(old(self)@.flags@, ImGuiInputTextFlags_AutoSelectAll, value),
            *final(self) == *final(r),
    {
        proof {
            lemma_input_text_flags_defined();
        }
        self.flag(ImGuiInputTextFlags_AutoSelectAll, value)
    }

    /// Reports a change only when Enter is pressed, or on every change.
    #[inline]
    pub fn enter_returns_true(&mut self, value: bool) -> (r: &mut Self)
        ensures
            r@ == old(self)@.with_flag(ImGuiInputTextFlags_EnterReturnsTrue, value),
            r@.flags@ == with_bits(old(self)@.flags@, ImGuiInputTextFlags_EnterReturnsTrue, value),
            *final(self) == *final(r),
    {
        proof {
            lemma_input_text_flags_defined();
        }
        self.flag(ImGuiInputTextFlags_EnterReturnsTrue, value)
    }

    /// Calls back on Tab, for completion, or not.
    #[inline]
    pub fn callback_completion(&mut self, value: bool) -> (r: &mut Self)
        ensures
            r@ == old(self)@.with_flag(ImGuiInputTextFlags_CallbackCompletion, value),
            r@.flags@ == with_bits(
                old(self)@.flags@,
                ImGuiInputTextFlags_CallbackCompletion,
                value,
            ),
            *final(self) == *final(r),
    {
        proof {
            lemma_input_text_flags_defined();
        }
        self.flag(ImGuiInputTextFlags_CallbackCompletion, value)
    }

    /// Calls back on the up and down arrows, for history, or not.
    #[inline]
    pub fn callback_history(&mut self, value: bool) -> (r: &mut Self)
        ensures
            r@ == old(self)@.with_flag(ImGuiInputTextFlags_CallbackHistory, value),
            r@.flags@ == with_bits(old(self)@.flags@, ImGuiInputTextFlags_CallbackHistory, value),
            *final(self) == *final(r),
    {
        proof {
            lemma_input_text_flags_defined();
        }
        self.flag(ImGuiInputTextFlags_CallbackHistory, value)
    }

    /// Calls back on every iteration, or not.
    #[inline]
    pub fn callback_always(&mut self, value: bool) -> (r: &mut Self)
        ensures
            r@ == old(self)@.with_flag(ImGuiInputTextFlags_CallbackAlways, value),
            r@.flags@ == with_bits(old(self)@.flags@, ImGuiInputTextFlags_CallbackAlways, value),
            *final(self) == *final(r),
    {
        proof {
            lemma_input_text_flags_defined();
        }
        self.flag(ImGuiInputTextFlags_CallbackAlways, value)
    }

    /// Calls back on every character, to filter it, or not.
    #[inline]
    pub fn callback_char_filter(&mut self, value: bool) -> (r: &mut Self)
        ensures
            r@ == old(self)@.with_flag(ImGuiInputTextFlags_CallbackCharFilter, value),
            r@.flags@ == with_bits(
                old(self)@.flags@,
                ImGuiInputTextFlags_CallbackCharFilter,
                value,
            ),
            *final(self) == *final(r),
    {
        proof {
            lemma_input_text_flags_defined();
        }
        self.flag(ImGuiInputTextFlags_CallbackCharFilter, value)
    }

    /// Lets Tab insert a tab character, or not.
    #[inline]
    pub fn allow_tab_input(&mut self, value: bool) -> (r: &mut Self)
        ensures
            r@ == old(self)@.with_flag(ImGuiInputTextFlags_AllowTabInput, value),
            r@.flags@ == with_bits(old(self)@.flags@, ImGuiInputTextFlags_AllowTabInput, value),
            *final(self) == *final(r),
    {
        proof {
            lemma_input_text_flags_defined();
        }
        self.flag(ImGuiInputTextFlags_AllowTabInput, value)
    }

    /// Keeps the text from following the cursor sideways, or not.
    #[inline]
    pub fn no_horizontal_scroll(&mut self, value: bool) -> (r: &mut Self)
        ensures
            r@ == old(self)@.with_flag(ImGuiInputTextFlags_NoHorizontalScroll, value),
            r@.flags@ == with_bits(
                old(self)@.flags@,
                ImGuiInputTextFlags_NoHorizontalScroll,
                value,
            ),
            *final(self) == *final(r),
    {
        proof {
            lemma_input_text_flags_defined();
        }
        self.flag(ImGuiInputTextFlags_NoHorizontalScroll, value)
    }

    /// Stays in insert mode, or not.
    #[inline]
    pub fn always_insert_mode(&mut self, value: bool) -> (r: &mut Self)
        ensures
            r@ == old(self)@.with_flag(ImGuiInputTextFlags_AlwaysInsertMode, value),
            r@.flags@ == with_bits(old(self)@.flags@, ImGuiInputTextFlags_AlwaysInsertMode, value),
            *final(self) == *final(r),
    {
        proof {
            lemma_input_text_flags_defined();
        }
        self.flag(ImGuiInputTextFlags_AlwaysInsertMode, value)
    }

    /// The call of an input on `value` under these options.
    pub fn input_float<'ui, 'p>(
        &self,
        _ui: &'ui Ui,
        label: &'p str,
        value: &'p mut u32,
    ) -> (r: InputFloatCall<'p>)
        ensures
            r == (InputFloatCall {
                label,
                value: r.value,
                step: self@.step,
                step_fast: self@.step_fast,
                decimal_precision: self@.decimal_precision,
                flags: self@.flags,
            }),
            *r.value == *old(value),
            *final(r.value) == *final(value),
    {
        InputFloatCall {
            label,
            value,
            step: self.step,
            step_fast: self.step_fast,
            decimal_precision: self.decimal_precision,
            flags: self.flags,
        }
    }

    /// The call of an input on two numbers under these options.
    pub fn input_float2<'ui, 'p>(
        &self,
        _ui: &'ui Ui,
        label: &'p str,
        value: &'p mut [u32; 2],
    ) -> (r: InputFloatNCall<'p, 2>)
        ensures
            r == (InputFloatNCall {
                label,
                value: r.value,
                decimal_precision: self@.decimal_precision,
                flags: self@.flags,
            }),
            *r.value == *old(value),
            *final(r.value) == *final(value),
    {
        InputFloatNCall {
            label,
            value,
            decimal_precision: self.decimal_precision,
            flags: self.flags,
        }
    }

    /// The call of an input on three numbers under these options.
    pub fn input_float3<'ui, 'p>(
        &self,
        _ui: &'ui Ui,
        label: &'p str,
        value: &'p mut [u32; 3],
    ) -> (r: InputFloatNCall<'p, 3>)
        ensures
            r == (InputFloatNCall {
                label,
                value: r.value,
                decimal_precision: self@.decimal_precision,
                flags: self@.flags,
            }),
            *r.value == *old(value),
            *final(r.value) == *final(value),
    {
        InputFloatNCall {
            label,
            value,
            decimal_precision: self.decimal_precision,
            flags: self.flags,
        }
    }

    /// The call of an input on four numbers under these options.
    pub fn input_float4<'ui, 'p>(
        &self,
        _ui: &'ui Ui,
        label: &'p str,
        value: &'p mut [u32; 4],
    ) -> (r: InputFloatNCall<'p, 4>)
        ensures
            r == (InputFloatNCall {
                label,
                value: r.value,
                decimal_precision: self@.decimal_precision,
                flags: self@.flags,
            }),
            *r.value == *old(value),
            *final(r.value) == *final(value),
    {
        InputFloatNCall {
            label,
            value,
            decimal_precision: self.decimal_precision,
            flags: self.flags,
        }
    }
}

} // verus!
