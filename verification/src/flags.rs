//! Flag sets, numbered as the native library numbers them.
//!
//! Each flag is a named `i32` constant with one bit set (a few are unions of
//! others). A flag set is a value of its own type that can hold defined bits
//! only, so that no undefined bit ever reaches the native library.

#![allow(non_upper_case_globals)]

use vstd::prelude::*;

verus! {

/// The bits of `bits` with those of `mask` switched on or off.
pub open spec fn with_bits(bits: i32, mask: i32, value: bool) -> i32 {
    if value {
        bits | mask
    } else {
        bits & !mask
    }
}

/// True when every bit of `mask` is set in `bits`.
pub open spec fn holds(bits: i32, mask: i32) -> bool {
    bits & mask == mask
}

/// True when `bits` has no bit outside `all`.
pub open spec fn within(bits: i32, all: i32) -> bool {
    bits & !all == 0
}

/// Union, difference and truncation stay within the defined bits.
pub proof fn lemma_within_closed(a: i32, b: i32, all: i32)
    by (bit_vector)
    ensures
        within(a & all, all),
        within(a, all) ==> a & all == a,
        within(a, all) && within(b, all) ==> within(a | b, all),
        within(a, all) ==> within(a & !b, all),
        within(a, all) && within(b, all) ==> within(with_bits(a, b, true), all),
        within(a, all) ==> within(with_bits(a, b, false), all),
        within(0i32, all),
        within(all, all),
{
}

/// Switching a mask on makes the set hold it; switching it off leaves none
/// of its bits; either way the bits outside the mask are untouched.
pub proof fn lemma_with_bits(bits: i32, mask: i32, value: bool)
    by (bit_vector)
    ensures
        holds(with_bits(bits, mask, true), mask),
        with_bits(bits, mask, false) & mask == 0,
        with_bits(bits, mask, value) & !mask == bits & !mask,
{
}

/// Switching the same mask twice is decided by the second switch alone.
pub proof fn lemma_with_bits_last_wins(bits: i32, mask: i32, first: bool, second: bool)
    by (bit_vector)
    ensures
        with_bits(with_bits(bits, mask, first), mask, second) == with_bits(bits, mask, second),
{
}

pub const ImGuiAlign_Left: i32 = 0x1;

pub const ImGuiAlign_Center: i32 = 0x2;

pub const ImGuiAlign_Right: i32 = 0x4;

pub const ImGuiAlign_Top: i32 = 0x8;

pub const ImGuiAlign_VCenter: i32 = 0x10;

/// `ImGuiAlign_Left | ImGuiAlign_Top`.
pub const ImGuiAlign_Default: i32 = 0x9;

/// Every bit that a [`ImGuiAlign`] can hold.
pub const ImGuiAlign_All: i32 = 0x1F;

/// Every named flag of [`ImGuiAlign`] lies within [`ImGuiAlign_All`].
pub proof fn lemma_align_defined()
    by (bit_vector)
    ensures
        within(ImGuiAlign_Left, ImGuiAlign_All),
        within(ImGuiAlign_Center, ImGuiAlign_All),
        within(ImGuiAlign_Right, ImGuiAlign_All),
        within(ImGuiAlign_Top, ImGuiAlign_All),
        within(ImGuiAlign_VCenter, ImGuiAlign_All),
        within(ImGuiAlign_Default, ImGuiAlign_All),
{
}

/// A set of flags for how a window title is aligned.
#[derive(Clone, Copy, Debug, PartialEq, Eq, Structural)]
pub struct ImGuiAlign {
    bits: i32,
}

impl View for ImGuiAlign {
    type V = i32;

    /// The set as the native `int` that stands for it.
    closed spec fn view(&self) -> i32 {
        self.bits
    }
}

impl ImGuiAlign {
    #[verifier::type_invariant]
    closed spec fn defined_bits_only(&self) -> bool {
        within(self.bits, ImGuiAlign_All)
    }

    /// The set that holds the defined bits of `bits`.
    pub closed spec fn spec_from_bits_truncate(bits: i32) -> Self {
        ImGuiAlign { bits: bits & ImGuiAlign_All }
    }

    /// The set `self` with the flags of `mask` switched on or off.
    pub open spec fn spec_with(self, mask: Self, value: bool) -> Self {
        Self::spec_from_bits_truncate(with_bits(self@, mask@, value))
    }

    /// The set of [`Self::spec_from_bits_truncate`] holds the defined bits of
    /// `bits`, which are all of them where `bits` has no other.
    pub proof fn lemma_from_bits_truncate(bits: i32)
        ensures
            Self::spec_from_bits_truncate(bits)@ == bits & ImGuiAlign_All,
            within(bits, ImGuiAlign_All) ==> Self::spec_from_bits_truncate(bits)@ == bits,
    {
        lemma_within_closed(bits, 0, ImGuiAlign_All);
    }

    /// Two sets with the same bits are the same set.
    pub proof fn lemma_equal_by_bits(a: Self, b: Self)
        requires
            a@ == b@,
        ensures
            a == b,
    {
    }

    /// The set with no flag.
    pub fn empty() -> (r: Self)
        ensures
            r@ == 0,
            r == Self::spec_from_bits_truncate(0),
    {
        proof {
            lemma_within_closed(0, 0, ImGuiAlign_All);
        }
        ImGuiAlign { bits: 0 }
    }

    /// The set with the bits `bits`, or `None` where one of them is not
    /// defined.
    pub fn from_bits(bits: i32) -> (r: Option<Self>)
        ensures
            match r {
                Some(flags) => within(bits, ImGuiAlign_All) && flags@ == bits
                    && flags == Self::spec_from_bits_truncate(bits),
                None => !within(bits, ImGuiAlign_All),
            },
    {
        proof {
            lemma_within_closed(bits, 0, ImGuiAlign_All);
        }
        if bits & !ImGuiAlign_All == 0 {
            Some(ImGuiAlign { bits })
        } else {
            None
        }
    }

    /// The set with the defined bits of `bits`.
    pub fn from_bits_truncate(bits: i32) -> (r: Self)
        ensures
            r == Self::spec_from_bits_truncate(bits),
            r@ == bits & ImGuiAlign_All,
            within(bits, ImGuiAlign_All) ==> r@ == bits,
    {
        proof {
            lemma_within_closed(bits, 0, ImGuiAlign_All);
        }
        ImGuiAlign { bits: bits & ImGuiAlign_All }
    }

    /// The native `int` that stands for the set. It has defined bits only.
    pub fn bits(&self) -> (r: i32)
        ensures
            r == self@,
            within(r, ImGuiAlign_All),
    {
        proof {
            use_type_invariant(self);
        }
        self.bits
    }

    /// Whether the set holds no flag.
    pub fn is_empty(&self) -> (r: bool)
        ensures
            r == (self@ == 0),
    {
        self.bits == 0
    }

    /// Whether the set holds every flag of `other`.
    pub fn contains(&self, other: Self) -> (r: bool)
        ensures
            r == holds(self@, other@),
    {
        self.bits & other.bits == other.bits
    }

    /// The flags of either set.
    pub fn union(self, other: Self) -> (r: Self)
        ensures
            r@ == self@ | other@,
            r == self.spec_with(other, true),
    {
        proof {
            use_type_invariant(&self);
            use_type_invariant(&other);
            lemma_within_closed(self.bits, other.bits, ImGuiAlign_All);
            lemma_within_closed(self.bits | other.bits, 0, ImGuiAlign_All);
        }
        ImGuiAlign { bits: self.bits | other.bits }
    }

    /// The flags of `self` that `other` does not hold.
    pub fn difference(self, other: Self) -> (r: Self)
        ensures
            r@ == self@ & !other@,
            r == self.spec_with(other, false),
    {
        proof {
            use_type_invariant(&self);
            lemma_within_closed(self.bits, other.bits, ImGuiAlign_All);
            lemma_within_closed(self.bits & !other.bits, 0, ImGuiAlign_All);
        }
        ImGuiAlign { bits: self.bits & !other.bits }
    }
}

impl core::ops::BitOr for ImGuiAlign {
    type Output = ImGuiAlign;

    /// The flags of either set.
    fn bitor(self, other: ImGuiAlign) -> (r: ImGuiAlign) {
        self.union(other)
    }
}

impl vstd::std_specs::ops::BitOrSpecImpl for ImGuiAlign {
    open spec fn obeys_bitor_spec() -> bool {
        true
    }

    open spec fn bitor_req(self, other: ImGuiAlign) -> bool {
        true
    }

    open spec fn bitor_spec(self, other: ImGuiAlign) -> ImGuiAlign {
        self.spec_with(other, true)
    }
}

impl core::ops::Sub for ImGuiAlign {
    type Output = ImGuiAlign;

    /// The flags of `self` that `other` does not hold.
    fn sub(self, other: ImGuiAlign) -> (r: ImGuiAlign) {
        self.difference(other)
    }
}

impl vstd::std_specs::ops::SubSpecImpl for ImGuiAlign {
    open spec fn obeys_sub_spec() -> bool {
        true
    }

    open spec fn sub_req(self, other: ImGuiAlign) -> bool {
        true
    }

    open spec fn sub_spec(self, other: ImGuiAlign) -> ImGuiAlign {
        self.spec_with(other, false)
    }
}

pub const ImGuiWindowFlags_NoTitleBar: i32 = 0x1;

pub const ImGuiWindowFlags_NoResize: i32 = 0x2;

pub const ImGuiWindowFlags_NoMove: i32 = 0x4;

pub const ImGuiWindowFlags_NoScrollbar: i32 = 0x8;

pub const ImGuiWindowFlags_NoScrollWithMouse: i32 = 0x10;

pub const ImGuiWindowFlags_NoCollapse: i32 = 0x20;

pub const ImGuiWindowFlags_AlwaysAutoResize: i32 = 0x40;

pub const ImGuiWindowFlags_ShowBorders: i32 = 0x80;

pub const ImGuiWindowFlags_NoSavedSettings: i32 = 0x100;

pub const ImGuiWindowFlags_NoInputs: i32 = 0x200;

pub const ImGuiWindowFlags_MenuBar: i32 = 0x400;

pub const ImGuiWindowFlags_HorizontalScrollbar: i32 = 0x800;

pub const ImGuiWindowFlags_NoFocusOnAppearing: i32 = 0x1000;

pub const ImGuiWindowFlags_NoBringToFrontOnFocus: i32 = 0x2000;

pub const ImGuiWindowFlags_AlwaysVerticalScrollbar: i32 = 0x4000;

pub const ImGuiWindowFlags_AlwaysHorizontalScrollbar: i32 = 0x8000;

pub const ImGuiWindowFlags_AlwaysUseWindowPadding: i32 = 0x10000;

pub const ImGuiWindowFlags_ChildWindow: i32 = 0x100000;

pub const ImGuiWindowFlags_ChildWindowAutoFitX: i32 = 0x200000;

pub const ImGuiWindowFlags_ChildWindowAutoFitY: i32 = 0x400000;

pub const ImGuiWindowFlags_ComboBox: i32 = 0x800000;

pub const ImGuiWindowFlags_Tooltip: i32 = 0x1000000;

pub const ImGuiWindowFlags_Popup: i32 = 0x2000000;

pub const ImGuiWindowFlags_Modal: i32 = 0x4000000;

pub const ImGuiWindowFlags_ChildMenu: i32 = 0x8000000;

/// Every bit that a [`ImGuiWindowFlags`] can hold.
pub const ImGuiWindowFlags_All: i32 = 0xFF1FFFF;

/// Every named flag of [`ImGuiWindowFlags`] lies within [`ImGuiWindowFlags_All`].
pub proof fn lemma_window_flags_defined()
    by (bit_vector)
    ensures
        within(ImGuiWindowFlags_NoTitleBar, ImGuiWindowFlags_All),
        within(ImGuiWindowFlags_NoResize, ImGuiWindowFlags_All),
        within(ImGuiWindowFlags_NoMove, ImGuiWindowFlags_All),
        within(ImGuiWindowFlags_NoScrollbar, ImGuiWindowFlags_All),
        within(ImGuiWindowFlags_NoScrollWithMouse, ImGuiWindowFlags_All),
        within(ImGuiWindowFlags_NoCollapse, ImGuiWindowFlags_All),
        within(ImGuiWindowFlags_AlwaysAutoResize, ImGuiWindowFlags_All),
        within(ImGuiWindowFlags_ShowBorders, ImGuiWindowFlags_All),
        within(ImGuiWindowFlags_NoSavedSettings, ImGuiWindowFlags_All),
        within(ImGuiWindowFlags_NoInputs, ImGuiWindowFlags_All),
        within(ImGuiWindowFlags_MenuBar, ImGuiWindowFlags_All),
        within(ImGuiWindowFlags_HorizontalScrollbar, ImGuiWindowFlags_All),
        within(ImGuiWindowFlags_NoFocusOnAppearing, ImGuiWindowFlags_All),
        within(ImGuiWindowFlags_NoBringToFrontOnFocus, ImGuiWindowFlags_All),
        within(ImGuiWindowFlags_AlwaysVerticalScrollbar, ImGuiWindowFlags_All),
        within(ImGuiWindowFlags_AlwaysHorizontalScrollbar, ImGuiWindowFlags_All),
        within(ImGuiWindowFlags_AlwaysUseWindowPadding, ImGuiWindowFlags_All),
        within(ImGuiWindowFlags_ChildWindow, ImGuiWindowFlags_All),
        within(ImGuiWindowFlags_ChildWindowAutoFitX, ImGuiWindowFlags_All),
        within(ImGuiWindowFlags_ChildWindowAutoFitY, ImGuiWindowFlags_All),
        within(ImGuiWindowFlags_ComboBox, ImGuiWindowFlags_All),
        within(ImGuiWindowFlags_Tooltip, ImGuiWindowFlags_All),
        within(ImGuiWindowFlags_Popup, ImGuiWindowFlags_All),
        within(ImGuiWindowFlags_Modal, ImGuiWindowFlags_All),
        within(ImGuiWindowFlags_ChildMenu, ImGuiWindowFlags_All),
{
}

/// A set of flags for the behaviour of a window.
#[derive(Clone, Copy, Debug, PartialEq, Eq, Structural)]
pub struct ImGuiWindowFlags {
    bits: i32,
}

impl View for ImGuiWindowFlags {
    type V = i32;

    /// The set as the native `int` that stands for it.
    closed spec fn view(&self) -> i32 {
        self.bits
    }
}

impl ImGuiWindowFlags {
    #[verifier::type_invariant]
    closed spec fn defined_bits_only(&self) -> bool {
        within(self.bits, ImGuiWindowFlags_All)
    }

    /// The set that holds the defined bits of `bits`.
    pub closed spec fn spec_from_bits_truncate(bits: i32) -> Self {
        ImGuiWindowFlags { bits: bits & ImGuiWindowFlags_All }
    }

    /// The set `self` with the flags of `mask` switched on or off.
    pub open spec fn spec_with(self, mask: Self, value: bool) -> Self {
        Self::spec_from_bits_truncate(with_bits(self@, mask@, value))
    }

    /// The set of [`Self::spec_from_bits_truncate`] holds the defined bits of
    /// `bits`, which are all of them where `bits` has no other.
    pub proof fn lemma_from_bits_truncate(bits: i32)
        ensures
            Self::spec_from_bits_truncate(bits)@ == bits & ImGuiWindowFlags_All,
            within(bits, ImGuiWindowFlags_All) ==> Self::spec_from_bits_truncate(bits)@ == bits,
    {
        lemma_within_closed(bits, 0, ImGuiWindowFlags_All);
    }

    /// Two sets with the same bits are the same set.
    pub proof fn lemma_equal_by_bits(a: Self, b: Self)
        requires
            a@ == b@,
        ensures
            a == b,
    {
    }

    /// The set with no flag.
    pub fn empty() -> (r: Self)
        ensures
            r@ == 0,
            r == Self::spec_from_bits_truncate(0),
    {
        proof {
            lemma_within_closed(0, 0, ImGuiWindowFlags_All);
        }
        ImGuiWindowFlags { bits: 0 }
    }

    /// The set with the bits `bits`, or `None` where one of them is not
    /// defined.
    pub fn from_bits(bits: i32) -> (r: Option<Self>)
        ensures
            match r {
                Some(flags) => within(bits, ImGuiWindowFlags_All) && flags@ == bits
                    && flags == Self::spec_from_bits_truncate(bits),
                None => !within(bits, ImGuiWindowFlags_All),
            },
    {
        proof {
            lemma_within_closed(bits, 0, ImGuiWindowFlags_All);
        }
        if bits & !ImGuiWindowFlags_All == 0 {
            Some(ImGuiWindowFlags { bits })
        } else {
            None
        }
    }

    /// The set with the defined bits of `bits`.
    pub fn from_bits_truncate(bits: i32) -> (r: Self)
        ensures
            r == Self::spec_from_bits_truncate(bits),
            r@ == bits & ImGuiWindowFlags_All,
            within(bits, ImGuiWindowFlags_All) ==> r@ == bits,
    {
        proof {
            lemma_within_closed(bits, 0, ImGuiWindowFlags_All);
        }
        ImGuiWindowFlags { bits: bits & ImGuiWindowFlags_All }
    }

    /// The native `int` that stands for the set. It has defined bits only.
    pub fn bits(&self) -> (r: i32)
        ensures
            r == self@,
            within(r, ImGuiWindowFlags_All),
    {
        proof {
            use_type_invariant(self);
        }
        self.bits
    }

    /// Whether the set holds no flag.
    pub fn is_empty(&self) -> (r: bool)
        ensures
            r == (self@ == 0),
    {
        self.bits == 0
    }

    /// Whether the set holds every flag of `other`.
    pub fn contains(&self, other: Self) -> (r: bool)
        ensures
            r == holds(self@, other@),
    {
        self.bits & other.bits == other.bits
    }

    /// The flags of either set.
    pub fn union(self, other: Self) -> (r: Self)
        ensures
            r@ == self@ | other@,
            r == self.spec_with(other, true),
    {
        proof {
            use_type_invariant(&self);
            use_type_invariant(&other);
            lemma_within_closed(self.bits, other.bits, ImGuiWindowFlags_All);
            lemma_within_closed(self.bits | other.bits, 0, ImGuiWindowFlags_All);
        }
        ImGuiWindowFlags { bits: self.bits | other.bits }
    }

    /// The flags of `self` that `other` does not hold.
    pub fn difference(self, other: Self) -> (r: Self)
        ensures
            r@ == self@ & !other@,
            r == self.spec_with(other, false),
    {
        proof {
            use_type_invariant(&self);
            lemma_within_closed(self.bits, other.bits, ImGuiWindowFlags_All);
            lemma_within_closed(self.bits & !other.bits, 0, ImGuiWindowFlags_All);
        }
        ImGuiWindowFlags { bits: self.bits & !other.bits }
    }

    /// The set with the flags of `mask` switched on (`value`) or off.
    #[inline]
    pub fn with(self, mask: Self, value: bool) -> (r: Self)
        ensures
            r == self.spec_with(mask, value),
            r@ == with_bits(self@, mask@, value),
    {
        proof {
            use_type_invariant(&self);
            use_type_invariant(&mask);
            Self::lemma_from_bits_truncate(with_bits(self@, mask@, value));
            lemma_within_closed(self@, mask@, ImGuiWindowFlags_All);
        }
        if value {
            self | mask
        } else {
            self - mask
        }
    }

    /// Switches the flags of `mask` on (`value`) or off, in place.
    #[inline]
    pub fn set(&mut self, mask: Self, value: bool)
        ensures
            *final(self) == old(self).spec_with(mask, value),
            final(self)@ == with_bits(old(self)@, mask@, value),
    {
        *self = self.with(mask, value);
    }
}

impl core::ops::BitOr for ImGuiWindowFlags {
    type Output = ImGuiWindowFlags;

    /// The flags of either set.
    fn bitor(self, other: ImGuiWindowFlags) -> (r: ImGuiWindowFlags) {
        self.union(other)
    }
}

impl vstd::std_specs::ops::BitOrSpecImpl for ImGuiWindowFlags {
    open spec fn obeys_bitor_spec() -> bool {
        true
    }

    open spec fn bitor_req(self, other: ImGuiWindowFlags) -> bool {
        true
    }

    open spec fn bitor_spec(self, other: ImGuiWindowFlags) -> ImGuiWindowFlags {
        self.spec_with(other, true)
    }
}

impl core::ops::Sub for ImGuiWindowFlags {
    type Output = ImGuiWindowFlags;

    /// The flags of `self` that `other` does not hold.
    fn sub(self, other: ImGuiWindowFlags) -> (r: ImGuiWindowFlags) {
        self.difference(other)
    }
}

impl vstd::std_specs::ops::SubSpecImpl for ImGuiWindowFlags {
    open spec fn obeys_sub_spec() -> bool {
        true
    }

    open spec fn sub_req(self, other: ImGuiWindowFlags) -> bool {
        true
    }

    open spec fn sub_spec(self, other: ImGuiWindowFlags) -> ImGuiWindowFlags {
        self.spec_with(other, false)
    }
}

pub const ImGuiSetCond_Always: i32 = 0x1;

pub const ImGuiSetCond_Once: i32 = 0x2;

pub const ImGuiSetCond_FirstUseEver: i32 = 0x4;

pub const ImGuiSetCond_Appearing: i32 = 0x8;

/// Every bit that a [`ImGuiSetCond`] can hold.
pub const ImGuiSetCond_All: i32 = 0xF;

/// Every named flag of [`ImGuiSetCond`] lies within [`ImGuiSetCond_All`].
pub proof fn lemma_set_cond_defined()
    by (bit_vector)
    ensures
        within(ImGuiSetCond_Always, ImGuiSetCond_All),
        within(ImGuiSetCond_Once, ImGuiSetCond_All),
        within(ImGuiSetCond_FirstUseEver, ImGuiSetCond_All),
        within(ImGuiSetCond_Appearing, ImGuiSetCond_All),
{
}

/// A set of flags for when a value set ahead of a window applies.
#[derive(Clone, Copy, Debug, PartialEq, Eq, Structural)]
pub struct ImGuiSetCond {
    bits: i32,
}

impl View for ImGuiSetCond {
    type V = i32;

    /// The set as the native `int` that stands for it.
    closed spec fn view(&self) -> i32 {
        self.bits
    }
}

impl ImGuiSetCond {
    #[verifier::type_invariant]
    closed spec fn defined_bits_only(&self) -> bool {
        within(self.bits, ImGuiSetCond_All)
    }

    /// The set that holds the defined bits of `bits`.
    pub closed spec fn spec_from_bits_truncate(bits: i32) -> Self {
        ImGuiSetCond { bits: bits & ImGuiSetCond_All }
    }

    /// The set `self` with the flags of `mask` switched on or off.
    pub open spec fn spec_with(self, mask: Self, value: bool) -> Self {
        Self::spec_from_bits_truncate(with_bits(self@, mask@, value))
    }

    /// The set of [`Self::spec_from_bits_truncate`] holds the defined bits of
    /// `bits`, which are all of them where `bits` has no other.
    pub proof fn lemma_from_bits_truncate(bits: i32)
        ensures
            Self::spec_from_bits_truncate(bits)@ == bits & ImGuiSetCond_All,
            within(bits, ImGuiSetCond_All) ==> Self::spec_from_bits_truncate(bits)@ == bits,
    {
        lemma_within_closed(bits, 0, ImGuiSetCond_All);
    }

    /// Two sets with the same bits are the same set.
    pub proof fn lemma_equal_by_bits(a: Self, b: Self)
        requires
            a@ == b@,
        ensures
            a == b,
    {
    }

    /// The set with no flag.
    pub fn empty() -> (r: Self)
        ensures
            r@ == 0,
            r == Self::spec_from_bits_truncate(0),
    {
        proof {
            lemma_within_closed(0, 0, ImGuiSetCond_All);
        }
        ImGuiSetCond { bits: 0 }
    }

    /// The set with the bits `bits`, or `None` where one of them is not
    /// defined.
    pub fn from_bits(bits: i32) -> (r: Option<Self>)
        ensures
            match r {
                Some(flags) => within(bits, ImGuiSetCond_All) && flags@ == bits
                    && flags == Self::spec_from_bits_truncate(bits),
                None => !within(bits, ImGuiSetCond_All),
            },
    {
        proof {
            lemma_within_closed(bits, 0, ImGuiSetCond_All);
        }
        if bits & !ImGuiSetCond_All == 0 {
            Some(ImGuiSetCond { bits })
        } else {
            None
        }
    }

    /// The set with the defined bits of `bits`.
    pub fn from_bits_truncate(bits: i32) -> (r: Self)
        ensures
            r == Self::spec_from_bits_truncate(bits),
            r@ == bits & ImGuiSetCond_All,
            within(bits, ImGuiSetCond_All) ==> r@ == bits,
    {
        proof {
            lemma_within_closed(bits, 0, ImGuiSetCond_All);
        }
        ImGuiSetCond { bits: bits & ImGuiSetCond_All }
    }

    /// The native `int` that stands for the set. It has defined bits only.
    pub fn bits(&self) -> (r: i32)
        ensures
            r == self@,
            within(r, ImGuiSetCond_All),
    {
        proof {
            use_type_invariant(self);
        }
        self.bits
    }

    /// Whether the set holds no flag.
    pub fn is_empty(&self) -> (r: bool)
        ensures
            r == (self@ == 0),
    {
        self.bits == 0
    }

    /// Whether the set holds every flag of `other`.
    pub fn contains(&self, other: Self) -> (r: bool)
        ensures
            r == holds(self@, other@),
    {
        self.bits & other.bits == other.bits
    }

    /// The flags of either set.
    pub fn union(self, other: Self) -> (r: Self)
        ensures
            r@ == self@ | other@,
            r == self.spec_with(other, true),
    {
        proof {
            use_type_invariant(&self);
            use_type_invariant(&other);
            lemma_within_closed(self.bits, other.bits, ImGuiSetCond_All);
            lemma_within_closed(self.bits | other.bits, 0, ImGuiSetCond_All);
        }
        ImGuiSetCond { bits: self.bits | other.bits }
    }

    /// The flags of `self` that `other` does not hold.
    pub fn difference(self, other: Self) -> (r: Self)
        ensures
            r@ == self@ & !other@,
            r == self.spec_with(other, false),
    {
        proof {
            use_type_invariant(&self);
            lemma_within_closed(self.bits, other.bits, ImGuiSetCond_All);
            lemma_within_closed(self.bits & !other.bits, 0, ImGuiSetCond_All);
        }
        ImGuiSetCond { bits: self.bits & !other.bits }
    }
}

impl core::ops::BitOr for ImGuiSetCond {
    type Output = ImGuiSetCond;

    /// The flags of either set.
    fn bitor(self, other: ImGuiSetCond) -> (r: ImGuiSetCond) {
        self.union(other)
    }
}

impl vstd::std_specs::ops::BitOrSpecImpl for ImGuiSetCond {
    open spec fn obeys_bitor_spec() -> bool {
        true
    }

    open spec fn bitor_req(self, other: ImGuiSetCond) -> bool {
        true
    }

    open spec fn bitor_spec(self, other: ImGuiSetCond) -> ImGuiSetCond {
        self.spec_with(other, true)
    }
}

impl core::ops::Sub for ImGuiSetCond {
    type Output = ImGuiSetCond;

    /// The flags of `self` that `other` does not hold.
    fn sub(self, other: ImGuiSetCond) -> (r: ImGuiSetCond) {
        self.difference(other)
    }
}

impl vstd::std_specs::ops::SubSpecImpl for ImGuiSetCond {
    open spec fn obeys_sub_spec() -> bool {
        true
    }

    open spec fn sub_req(self, other: ImGuiSetCond) -> bool {
        true
    }

    open spec fn sub_spec(self, other: ImGuiSetCond) -> ImGuiSetCond {
        self.spec_with(other, false)
    }
}

pub const ImGuiInputTextFlags_CharsDecimal: i32 = 0x1;

pub const ImGuiInputTextFlags_CharsHexadecimal: i32 = 0x2;

pub const ImGuiInputTextFlags_CharsUppercase: i32 = 0x4;

pub const ImGuiInputTextFlags_CharsNoBlank: i32 = 0x8;

pub const ImGuiInputTextFlags_AutoSelectAll: i32 = 0x10;

pub const ImGuiInputTextFlags_EnterReturnsTrue: i32 = 0x20;

pub const ImGuiInputTextFlags_CallbackCompletion: i32 = 0x40;

pub const ImGuiInputTextFlags_CallbackHistory: i32 = 0x80;

pub const ImGuiInputTextFlags_CallbackAlways: i32 = 0x100;

pub const ImGuiInputTextFlags_CallbackCharFilter: i32 = 0x200;

pub const ImGuiInputTextFlags_AllowTabInput: i32 = 0x400;

pub const ImGuiInputTextFlags_CtrlEnterForNewLine: i32 = 0x800;

pub const ImGuiInputTextFlags_NoHorizontalScroll: i32 = 0x1000;

pub const ImGuiInputTextFlags_AlwaysInsertMode: i32 = 0x2000;

pub const ImGuiInputTextFlags_ReadOnly: i32 = 0x4000;

pub const ImGuiInputTextFlags_Password: i32 = 0x8000;

pub const ImGuiInputTextFlags_Multiline: i32 = 0x100000;

/// Every bit that a [`ImGuiInputTextFlags`] can hold.
pub const ImGuiInputTextFlags_All: i32 = 0x10FFFF;

/// Every named flag of [`ImGuiInputTextFlags`] lies within [`ImGuiInputTextFlags_All`].
pub proof fn lemma_input_text_flags_defined()
    by (bit_vector)
    ensures
        within(ImGuiInputTextFlags_CharsDecimal, ImGuiInputTextFlags_All),
        within(ImGuiInputTextFlags_CharsHexadecimal, ImGuiInputTextFlags_All),
        within(ImGuiInputTextFlags_CharsUppercase, ImGuiInputTextFlags_All),
        within(ImGuiInputTextFlags_CharsNoBlank, ImGuiInputTextFlags_All),
        within(ImGuiInputTextFlags_AutoSelectAll, ImGuiInputTextFlags_All),
        within(ImGuiInputTextFlags_EnterReturnsTrue, ImGuiInputTextFlags_All),
        within(ImGuiInputTextFlags_CallbackCompletion, ImGuiInputTextFlags_All),
        within(ImGuiInputTextFlags_CallbackHistory, ImGuiInputTextFlags_All),
        within(ImGuiInputTextFlags_CallbackAlways, ImGuiInputTextFlags_All),
        within(ImGuiInputTextFlags_CallbackCharFilter, ImGuiInputTextFlags_All),
        within(ImGuiInputTextFlags_AllowTabInput, ImGuiInputTextFlags_All),
        within(ImGuiInputTextFlags_CtrlEnterForNewLine, ImGuiInputTextFlags_All),
        within(ImGuiInputTextFlags_NoHorizontalScroll, ImGuiInputTextFlags_All),
        within(ImGuiInputTextFlags_AlwaysInsertMode, ImGuiInputTextFlags_All),
        within(ImGuiInputTextFlags_ReadOnly, ImGuiInputTextFlags_All),
        within(ImGuiInputTextFlags_Password, ImGuiInputTextFlags_All),
        within(ImGuiInputTextFlags_Multiline, ImGuiInputTextFlags_All),
{
}

/// A set of flags for the behaviour of a text or number input.
#[derive(Clone, Copy, Debug, PartialEq, Eq, Structural)]
pub struct ImGuiInputTextFlags {
    bits: i32,
}

impl View for ImGuiInputTextFlags {
    type V = i32;

    /// The set as the native `int` that stands for it.
    closed spec fn view(&self) -> i32 {
        self.bits
    }
}

impl ImGuiInputTextFlags {
    #[verifier::type_invariant]
    closed spec fn defined_bits_only(&self) -> bool {
        within(self.bits, ImGuiInputTextFlags_All)
    }

    /// The set that holds the defined bits of `bits`.
    pub closed spec fn spec_from_bits_truncate(bits: i32) -> Self {
        ImGuiInputTextFlags { bits: bits & ImGuiInputTextFlags_All }
    }

    /// The set `self` with the flags of `mask` switched on or off.
    pub open spec fn spec_with(self, mask: Self, value: bool) -> Self {
        Self::spec_from_bits_truncate(with_bits(self@, mask@, value))
    }

    /// The set of [`Self::spec_from_bits_truncate`] holds the defined bits of
    /// `bits`, which are all of them where `bits` has no other.
    pub proof fn lemma_from_bits_truncate(bits: i32)
        ensures
            Self::spec_from_bits_truncate(bits)@ == bits & ImGuiInputTextFlags_All,
            within(bits, ImGuiInputTextFlags_All) ==> Self::spec_from_bits_truncate(bits)@ == bits,
    {
        lemma_within_closed(bits, 0, ImGuiInputTextFlags_All);
    }

    /// Two sets with the same bits are the same set.
    pub proof fn lemma_equal_by_bits(a: Self, b: Self)
        requires
            a@ == b@,
        ensures
            a == b,
    {
    }

    /// The set with no flag.
    pub fn empty() -> (r: Self)
        ensures
            r@ == 0,
            r == Self::spec_from_bits_truncate(0),
    {
        proof {
            lemma_within_closed(0, 0, ImGuiInputTextFlags_All);
        }
        ImGuiInputTextFlags { bits: 0 }
    }

    /// The set with the bits `bits`, or `None` where one of them is not
    /// defined.
    pub fn from_bits(bits: i32) -> (r: Option<Self>)
        ensures
            match r {
                Some(flags) => within(bits, ImGuiInputTextFlags_All) && flags@ == bits
                    && flags == Self::spec_from_bits_truncate(bits),
                None => !within(bits, ImGuiInputTextFlags_All),
            },
    {
        proof {
            lemma_within_closed(bits, 0, ImGuiInputTextFlags_All);
        }
        if bits & !ImGuiInputTextFlags_All == 0 {
            Some(ImGuiInputTextFlags { bits })
        } else {
            None
        }
    }

    /// The set with the defined bits of `bits`.
    pub fn from_bits_truncate(bits: i32) -> (r: Self)
        ensures
            r == Self::spec_from_bits_truncate(bits),
            r@ == bits & ImGuiInputTextFlags_All,
            within(bits, ImGuiInputTextFlags_All) ==> r@ == bits,
    {
        proof {
            lemma_within_closed(bits, 0, ImGuiInputTextFlags_All);
        }
        ImGuiInputTextFlags { bits: bits & ImGuiInputTextFlags_All }
    }

    /// The native `int` that stands for the set. It has defined bits only.
    pub fn bits(&self) -> (r: i32)
        ensures
            r == self@,
            within(r, ImGuiInputTextFlags_All),
    {
        proof {
            use_type_invariant(self);
        }
        self.bits
    }

    /// Whether the set holds no flag.
    pub fn is_empty(&self) -> (r: bool)
        ensures
            r == (self@ == 0),
    {
        self.bits == 0
    }

    /// Whether the set holds every flag of `other`.
    pub fn contains(&self, other: Self) -> (r: bool)
        ensures
            r == holds(self@, other@),
    {
        self.bits & other.bits == other.bits
    }

    /// The flags of either set.
    pub fn union(self, other: Self) -> (r: Self)
        ensures
            r@ == self@ | other@,
            r == self.spec_with(other, true),
    {
        proof {
            use_type_invariant(&self);
            use_type_invariant(&other);
            lemma_within_closed(self.bits, other.bits, ImGuiInputTextFlags_All);
            lemma_within_closed(self.bits | other.bits, 0, ImGuiInputTextFlags_All);
        }
        ImGuiInputTextFlags { bits: self.bits | other.bits }
    }

    /// The flags of `self` that `other` does not hold.
    pub fn difference(self, other: Self) -> (r: Self)
        ensures
            r@ == self@ & !other@,
            r == self.spec_with(other, false),
    {
        proof {
            use_type_invariant(&self);
            lemma_within_closed(self.bits, other.bits, ImGuiInputTextFlags_All);
            lemma_within_closed(self.bits & !other.bits, 0, ImGuiInputTextFlags_All);
        }
        ImGuiInputTextFlags { bits: self.bits & !other.bits }
    }

    /// The set with the flags of `mask` switched on (`value`) or off.
    #[inline]
    pub fn with(self, mask: Self, value: bool) -> (r: Self)
        ensures
            r == self.spec_with(mask, value),
            r@ == with_bits(self@, mask@, value),
    {
        proof {
            use_type_invariant(&self);
            use_type_invariant(&mask);
            Self::lemma_from_bits_truncate(with_bits(self@, mask@, value));
            lemma_within_closed(self@, mask@, ImGuiInputTextFlags_All);
        }
        if value {
            self | mask
        } else {
            self - mask
        }
    }

    /// Switches the flags of `mask` on (`value`) or off, in place.
    #[inline]
    pub fn set(&mut self, mask: Self, value: bool)
        ensures
            *final(self) == old(self).spec_with(mask, value),
            final(self)@ == with_bits(old(self)@, mask@, value),
    {
        *self = self.with(mask, value);
    }
}

impl core::ops::BitOr for ImGuiInputTextFlags {
    type Output = ImGuiInputTextFlags;

    /// The flags of either set.
    fn bitor(self, other: ImGuiInputTextFlags) -> (r: ImGuiInputTextFlags) {
        self.union(other)
    }
}

impl vstd::std_specs::ops::BitOrSpecImpl for ImGuiInputTextFlags {
    open spec fn obeys_bitor_spec() -> bool {
        true
    }

    open spec fn bitor_req(self, other: ImGuiInputTextFlags) -> bool {
        true
    }

    open spec fn bitor_spec(self, other: ImGuiInputTextFlags) -> ImGuiInputTextFlags {
        self.spec_with(other, true)
    }
}

impl core::ops::Sub for ImGuiInputTextFlags {
    type Output = ImGuiInputTextFlags;

    /// The flags of `self` that `other` does not hold.
    fn sub(self, other: ImGuiInputTextFlags) -> (r: ImGuiInputTextFlags) {
        self.difference(other)
    }
}

impl vstd::std_specs::ops::SubSpecImpl for ImGuiInputTextFlags {
    open spec fn obeys_sub_spec() -> bool {
        true
    }

    open spec fn sub_req(self, other: ImGuiInputTextFlags) -> bool {
        true
    }

    open spec fn sub_spec(self, other: ImGuiInputTextFlags) -> ImGuiInputTextFlags {
        self.spec_with(other, false)
    }
}

pub const ImGuiSelectableFlags_DontClosePopups: i32 = 0x1;

pub const ImGuiSelectableFlags_SpanAllColumns: i32 = 0x2;

pub const ImGuiSelectableFlags_AllowDoubleClick: i32 = 0x4;

/// Every bit that a [`ImGuiSelectableFlags`] can hold.
pub const ImGuiSelectableFlags_All: i32 = 0x7;

/// Every named flag of [`ImGuiSelectableFlags`] lies within [`ImGuiSelectableFlags_All`].
pub proof fn lemma_selectable_flags_defined()
    by (bit_vector)
    ensures
        within(ImGuiSelectableFlags_DontClosePopups, ImGuiSelectableFlags_All),
        within(ImGuiSelectableFlags_SpanAllColumns, ImGuiSelectableFlags_All),
        within(ImGuiSelectableFlags_AllowDoubleClick, ImGuiSelectableFlags_All),
{
}

/// A set of flags for the behaviour of a selectable item.
#[derive(Clone, Copy, Debug, PartialEq, Eq, Structural)]
pub struct ImGuiSelectableFlags {
    bits: i32,
}

impl View for ImGuiSelectableFlags {
    type V = i32;

    /// The set as the native `int` that stands for it.
    closed spec fn view(&self) -> i32 {
        self.bits
    }
}

impl ImGuiSelectableFlags {
    #[verifier::type_invariant]
    closed spec fn defined_bits_only(&self) -> bool {
        within(self.bits, ImGuiSelectableFlags_All)
    }

    /// The set that holds the defined bits of `bits`.
    pub closed spec fn spec_from_bits_truncate(bits: i32) -> Self {
        ImGuiSelectableFlags { bits: bits & ImGuiSelectableFlags_All }
    }

    /// The set `self` with the flags of `mask` switched on or off.
    pub open spec fn spec_with(self, mask: Self, value: bool) -> Self {
        Self::spec_from_bits_truncate(with_bits(self@, mask@, value))
    }

    /// The set of [`Self::spec_from_bits_truncate`] holds the defined bits of
    /// `bits`, which are all of them where `bits` has no other.
    pub proof fn lemma_from_bits_truncate(bits: i32)
        ensures
            Self::spec_from_bits_truncate(bits)@ == bits & ImGuiSelectableFlags_All,
            within(bits, ImGuiSelectableFlags_All) ==> Self::spec_from_bits_truncate(bits)@ == bits,
    {
        lemma_within_closed(bits, 0, ImGuiSelectableFlags_All);
    }

    /// Two sets with the same bits are the same set.
    pub proof fn lemma_equal_by_bits(a: Self, b: Self)
        requires
            a@ == b@,
        ensures
            a == b,
    {
    }

    /// The set with no flag.
    pub fn empty() -> (r: Self)
        ensures
            r@ == 0,
            r == Self::spec_from_bits_truncate(0),
    {
        proof {
            lemma_within_closed(0, 0, ImGuiSelectableFlags_All);
        }
        ImGuiSelectableFlags { bits: 0 }
    }

    /// The set with the bits `bits`, or `None` where one of them is not
    /// defined.
    pub fn from_bits(bits: i32) -> (r: Option<Self>)
        ensures
            match r {
                Some(flags) => within(bits, ImGuiSelectableFlags_All) && flags@ == bits
                    && flags == Self::spec_from_bits_truncate(bits),
                None => !within(bits, ImGuiSelectableFlags_All),
            },
    {
        proof {
            lemma_within_closed(bits, 0, ImGuiSelectableFlags_All);
        }
        if bits & !ImGuiSelectableFlags_All == 0 {
            Some(ImGuiSelectableFlags { bits })
        } else {
            None
        }
    }

    /// The set with the defined bits of `bits`.
    pub fn from_bits_truncate(bits: i32) -> (r: Self)
        ensures
            r == Self::spec_from_bits_truncate(bits),
            r@ == bits & ImGuiSelectableFlags_All,
            within(bits, ImGuiSelectableFlags_All) ==> r@ == bits,
    {
        proof {
            lemma_within_closed(bits, 0, ImGuiSelectableFlags_All);
        }
        ImGuiSelectableFlags { bits: bits & ImGuiSelectableFlags_All }
    }

    /// The native `int` that stands for the set. It has defined bits only.
    pub fn bits(&self) -> (r: i32)
        ensures
            r == self@,
            within(r, ImGuiSelectableFlags_All),
    {
        proof {
            use_type_invariant(self);
        }
        self.bits
    }

    /// Whether the set holds no flag.
    pub fn is_empty(&self) -> (r: bool)
        ensures
            r == (self@ == 0),
    {
        self.bits == 0
    }

    /// Whether the set holds every flag of `other`.
    pub fn contains(&self, other: Self) -> (r: bool)
        ensures
            r == holds(self@, other@),
    {
        self.bits & other.bits == other.bits
    }

    /// The flags of either set.
    pub fn union(self, other: Self) -> (r: Self)
        ensures
            r@ == self@ | other@,
            r == self.spec_with(other, true),
    {
        proof {
            use_type_invariant(&self);
            use_type_invariant(&other);
            lemma_within_closed(self.bits, other.bits, ImGuiSelectableFlags_All);
            lemma_within_closed(self.bits | other.bits, 0, ImGuiSelectableFlags_All);
        }
        ImGuiSelectableFlags { bits: self.bits | other.bits }
    }

    /// The flags of `self` that `other` does not hold.
    pub fn difference(self, other: Self) -> (r: Self)
        ensures
            r@ == self@ & !other@,
            r == self.spec_with(other, false),
    {
        proof {
            use_type_invariant(&self);
            lemma_within_closed(self.bits, other.bits, ImGuiSelectableFlags_All);
            lemma_within_closed(self.bits & !other.bits, 0, ImGuiSelectableFlags_All);
        }
        ImGuiSelectableFlags { bits: self.bits & !other.bits }
    }
}

impl core::ops::BitOr for ImGuiSelectableFlags {
    type Output = ImGuiSelectableFlags;

    /// The flags of either set.
    fn bitor(self, other: ImGuiSelectableFlags) -> (r: ImGuiSelectableFlags) {
        self.union(other)
    }
}

impl vstd::std_specs::ops::BitOrSpecImpl for ImGuiSelectableFlags {
    open spec fn obeys_bitor_spec() -> bool {
        true
    }

    open spec fn bitor_req(self, other: ImGuiSelectableFlags) -> bool {
        true
    }

    open spec fn bitor_spec(self, other: ImGuiSelectableFlags) -> ImGuiSelectableFlags {
        self.spec_with(other, true)
    }
}

impl core::ops::Sub for ImGuiSelectableFlags {
    type Output = ImGuiSelectableFlags;

    /// The flags of `self` that `other` does not hold.
    fn sub(self, other: ImGuiSelectableFlags) -> (r: ImGuiSelectableFlags) {
        self.difference(other)
    }
}

impl vstd::std_specs::ops::SubSpecImpl for ImGuiSelectableFlags {
    open spec fn obeys_sub_spec() -> bool {
        true
    }

    open spec fn sub_req(self, other: ImGuiSelectableFlags) -> bool {
        true
    }

    open spec fn sub_spec(self, other: ImGuiSelectableFlags) -> ImGuiSelectableFlags {
        self.spec_with(other, false)
    }
}

pub const ImGuiTreeNodeFlags_Selected: i32 = 0x1;

pub const ImGuiTreeNodeFlags_Framed: i32 = 0x2;

pub const ImGuiTreeNodeFlags_AllowOverlapMode: i32 = 0x4;

pub const ImGuiTreeNodeFlags_NoTreePushOnOpen: i32 = 0x8;

pub const ImGuiTreeNodeFlags_NoAutoOpenOnLog: i32 = 0x10;

pub const ImGuiTreeNodeFlags_DefaultOpen: i32 = 0x20;

pub const ImGuiTreeNodeFlags_OpenOnDoubleClick: i32 = 0x40;

pub const ImGuiTreeNodeFlags_OpenOnArrow: i32 = 0x80;

pub const ImGuiTreeNodeFlags_Leaf: i32 = 0x100;

pub const ImGuiTreeNodeFlags_Bullet: i32 = 0x200;

/// `ImGuiTreeNodeFlags_Framed | ImGuiTreeNodeFlags_NoAutoOpenOnLog`.
pub const ImGuiTreeNodeFlags_CollapsingHeader: i32 = 0x12;

/// Every bit that a [`ImGuiTreeNodeFlags`] can hold.
pub const ImGuiTreeNodeFlags_All: i32 = 0x3FF;

/// Every named flag of [`ImGuiTreeNodeFlags`] lies within [`ImGuiTreeNodeFlags_All`].
pub proof fn lemma_tree_node_flags_defined()
    by (bit_vector)
    ensures
        within(ImGuiTreeNodeFlags_Selected, ImGuiTreeNodeFlags_All),
        within(ImGuiTreeNodeFlags_Framed, ImGuiTreeNodeFlags_All),
        within(ImGuiTreeNodeFlags_AllowOverlapMode, ImGuiTreeNodeFlags_All),
        within(ImGuiTreeNodeFlags_NoTreePushOnOpen, ImGuiTreeNodeFlags_All),
        within(ImGuiTreeNodeFlags_NoAutoOpenOnLog, ImGuiTreeNodeFlags_All),
        within(ImGuiTreeNodeFlags_DefaultOpen, ImGuiTreeNodeFlags_All),
        within(ImGuiTreeNodeFlags_OpenOnDoubleClick, ImGuiTreeNodeFlags_All),
        within(ImGuiTreeNodeFlags_OpenOnArrow, ImGuiTreeNodeFlags_All),
        within(ImGuiTreeNodeFlags_Leaf, ImGuiTreeNodeFlags_All),
        within(ImGuiTreeNodeFlags_Bullet, ImGuiTreeNodeFlags_All),
        within(ImGuiTreeNodeFlags_CollapsingHeader, ImGuiTreeNodeFlags_All),
{
}

/// A set of flags for the behaviour of a tree node.
#[derive(Clone, Copy, Debug, PartialEq, Eq, Structural)]
pub struct ImGuiTreeNodeFlags {
    bits: i32,
}

impl View for ImGuiTreeNodeFlags {
    type V = i32;

    /// The set as the native `int` that stands for it.
    closed spec fn view(&self) -> i32 {
        self.bits
    }
}

impl ImGuiTreeNodeFlags {
    #[verifier::type_invariant]
    closed spec fn defined_bits_only(&self) -> bool {
        within(self.bits, ImGuiTreeNodeFlags_All)
    }

    /// The set that holds the defined bits of `bits`.
    pub closed spec fn spec_from_bits_truncate(bits: i32) -> Self {
        ImGuiTreeNodeFlags { bits: bits & ImGuiTreeNodeFlags_All }
    }

    /// The set `self` with the flags of `mask` switched on or off.
    pub open spec fn spec_with(self, mask: Self, value: bool) -> Self {
        Self::spec_from_bits_truncate(with_bits(self@, mask@, value))
    }

    /// The set of [`Self::spec_from_bits_truncate`] holds the defined bits of
    /// `bits`, which are all of them where `bits` has no other.
    pub proof fn lemma_from_bits_truncate(bits: i32)
        ensures
            Self::spec_from_bits_truncate(bits)@ == bits & ImGuiTreeNodeFlags_All,
            within(bits, ImGuiTreeNodeFlags_All) ==> Self::spec_from_bits_truncate(bits)@ == bits,
    {
        lemma_within_closed(bits, 0, ImGuiTreeNodeFlags_All);
    }

    /// Two sets with the same bits are the same set.
    pub proof fn lemma_equal_by_bits(a: Self, b: Self)
        requires
            a@ == b@,
        ensures
            a == b,
    {
    }

    /// The set with no flag.
    pub fn empty() -> (r: Self)
        ensures
            r@ == 0,
            r == Self::spec_from_bits_truncate(0),
    {
        proof {
            lemma_within_closed(0, 0, ImGuiTreeNodeFlags_All);
        }
        ImGuiTreeNodeFlags { bits: 0 }
    }

    /// The set with the bits `bits`, or `None` where one of them is not
    /// defined.
    pub fn from_bits(bits: i32) -> (r: Option<Self>)
        ensures
            match r {
                Some(flags) => within(bits, ImGuiTreeNodeFlags_All) && flags@ == bits
                    && flags == Self::spec_from_bits_truncate(bits),
                None => !within(bits, ImGuiTreeNodeFlags_All),
            },
    {
        proof {
            lemma_within_closed(bits, 0, ImGuiTreeNodeFlags_All);
        }
        if bits & !ImGuiTreeNodeFlags_All == 0 {
            Some(ImGuiTreeNodeFlags { bits })
        } else {
            None
        }
    }

    /// The set with the defined bits of `bits`.
    pub fn from_bits_truncate(bits: i32) -> (r: Self)
        ensures
            r == Self::spec_from_bits_truncate(bits),
            r@ == bits & ImGuiTreeNodeFlags_All,
            within(bits, ImGuiTreeNodeFlags_All) ==> r@ == bits,
    {
        proof {
            lemma_within_closed(bits, 0, ImGuiTreeNodeFlags_All);
        }
        ImGuiTreeNodeFlags { bits: bits & ImGuiTreeNodeFlags_All }
    }

    /// The native `int` that stands for the set. It has defined bits only.
    pub fn bits(&self) -> (r: i32)
        ensures
            r == self@,
            within(r, ImGuiTreeNodeFlags_All),
    {
        proof {
            use_type_invariant(self);
        }
        self.bits
    }

    /// Whether the set holds no flag.
    pub fn is_empty(&self) -> (r: bool)
        ensures
            r == (self@ == 0),
    {
        self.bits == 0
    }

    /// Whether the set holds every flag of `other`.
    pub fn contains(&self, other: Self) -> (r: bool)
        ensures
            r == holds(self@, other@),
    {
        self.bits & other.bits == other.bits
    }

    /// The flags of either set.
    pub fn union(self, other: Self) -> (r: Self)
        ensures
            r@ == self@ | other@,
            r == self.spec_with(other, true),
    {
        proof {
            use_type_invariant(&self);
            use_type_invariant(&other);
            lemma_within_closed(self.bits, other.bits, ImGuiTreeNodeFlags_All);
            lemma_within_closed(self.bits | other.bits, 0, ImGuiTreeNodeFlags_All);
        }
        ImGuiTreeNodeFlags { bits: self.bits | other.bits }
    }

    /// The flags of `self` that `other` does not hold.
    pub fn difference(self, other: Self) -> (r: Self)
        ensures
            r@ == self@ & !other@,
            r == self.spec_with(other, false),
    {
        proof {
            use_type_invariant(&self);
            lemma_within_closed(self.bits, other.bits, ImGuiTreeNodeFlags_All);
            lemma_within_closed(self.bits & !other.bits, 0, ImGuiTreeNodeFlags_All);
        }
        ImGuiTreeNodeFlags { bits: self.bits & !other.bits }
    }

    /// The set with the flags of `mask` switched on (`value`) or off.
    #[inline]
    pub fn with(self, mask: Self, value: bool) -> (r: Self)
        ensures
            r == self.spec_with(mask, value),
            r@ == with_bits(self@, mask@, value),
    {
        proof {
            use_type_invariant(&self);
            use_type_invariant(&mask);
            Self::lemma_from_bits_truncate(with_bits(self@, mask@, value));
            lemma_within_closed(self@, mask@, ImGuiTreeNodeFlags_All);
        }
        if value {
            self | mask
        } else {
            self - mask
        }
    }

    /// Switches the flags of `mask` on (`value`) or off, in place.
    #[inline]
    pub fn set(&mut self, mask: Self, value: bool)
        ensures
            *final(self) == old(self).spec_with(mask, value),
            final(self)@ == with_bits(old(self)@, mask@, value),
    {
        *self = self.with(mask, value);
    }
}

impl core::ops::BitOr for ImGuiTreeNodeFlags {
    type Output = ImGuiTreeNodeFlags;

    /// The flags of either set.
    fn bitor(self, other: ImGuiTreeNodeFlags) -> (r: ImGuiTreeNodeFlags) {
        self.union(other)
    }
}

impl vstd::std_specs::ops::BitOrSpecImpl for ImGuiTreeNodeFlags {
    open spec fn obeys_bitor_spec() -> bool {
        true
    }

    open spec fn bitor_req(self, other: ImGuiTreeNodeFlags) -> bool {
        true
    }

    open spec fn bitor_spec(self, other: ImGuiTreeNodeFlags) -> ImGuiTreeNodeFlags {
        self.spec_with(other, true)
    }
}

impl core::ops::Sub for ImGuiTreeNodeFlags {
    type Output = ImGuiTreeNodeFlags;

    /// The flags of `self` that `other` does not hold.
    fn sub(self, other: ImGuiTreeNodeFlags) -> (r: ImGuiTreeNodeFlags) {
        self.difference(other)
    }
}

impl vstd::std_specs::ops::SubSpecImpl for ImGuiTreeNodeFlags {
    open spec fn obeys_sub_spec() -> bool {
        true
    }

    open spec fn sub_req(self, other: ImGuiTreeNodeFlags) -> bool {
        true
    }

    open spec fn sub_spec(self, other: ImGuiTreeNodeFlags) -> ImGuiTreeNodeFlags {
        self.spec_with(other, false)
    }
}

} // verus!
