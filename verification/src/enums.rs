//! Enumerations, numbered as the native library numbers them.

#![allow(non_upper_case_globals)]

use vstd::prelude::*;

verus! {

/// Number of variants of [`ImGuiCol`], and length of the native tables that
/// they index.
pub const ImGuiCol_COUNT: usize = 43;

/// The colours of the style, by what they paint.
#[derive(Copy, Clone, Debug, PartialEq, Eq, Structural)]
pub enum ImGuiCol {
    Text,
    TextDisabled,
    WindowBg,
    ChildWindowBg,
    PopupBg,
    Border,
    BorderShadow,
    FrameBg,
    FrameBgHovered,
    FrameBgActive,
    TitleBg,
    TitleBgCollapsed,
    TitleBgActive,
    MenuBarBg,
    ScrollbarBg,
    ScrollbarGrab,
    ScrollbarGrabHovered,
    ScrollbarGrabActive,
    ComboBg,
    CheckMark,
    SliderGrab,
    SliderGrabActive,
    Button,
    ButtonHovered,
    ButtonActive,
    Header,
    HeaderHovered,
    HeaderActive,
    Column,
    ColumnHovered,
    ColumnActive,
    ResizeGrip,
    ResizeGripHovered,
    ResizeGripActive,
    CloseButton,
    CloseButtonHovered,
    CloseButtonActive,
    PlotLines,
    PlotLinesHovered,
    PlotHistogram,
    PlotHistogramHovered,
    TextSelectedBg,
    ModalWindowDarkening,
}

impl ImGuiCol {
    /// The native number of the variant.
    pub open spec fn spec_index(self) -> nat {
        match self {
            ImGuiCol::Text => 0,
            ImGuiCol::TextDisabled => 1,
            ImGuiCol::WindowBg => 2,
            ImGuiCol::ChildWindowBg => 3,
            ImGuiCol::PopupBg => 4,
            ImGuiCol::Border => 5,
            ImGuiCol::BorderShadow => 6,
            ImGuiCol::FrameBg => 7,
            ImGuiCol::FrameBgHovered => 8,
            ImGuiCol::FrameBgActive => 9,
            ImGuiCol::TitleBg => 10,
            ImGuiCol::TitleBgCollapsed => 11,
            ImGuiCol::TitleBgActive => 12,
            ImGuiCol::MenuBarBg => 13,
            ImGuiCol::ScrollbarBg => 14,
            ImGuiCol::ScrollbarGrab => 15,
            ImGuiCol::ScrollbarGrabHovered => 16,
            ImGuiCol::ScrollbarGrabActive => 17,
            ImGuiCol::ComboBg => 18,
            ImGuiCol::CheckMark => 19,
            ImGuiCol::SliderGrab => 20,
            ImGuiCol::SliderGrabActive => 21,
            ImGuiCol::Button => 22,
            ImGuiCol::ButtonHovered => 23,
            ImGuiCol::ButtonActive => 24,
            ImGuiCol::Header => 25,
            ImGuiCol::HeaderHovered => 26,
            ImGuiCol::HeaderActive => 27,
            ImGuiCol::Column => 28,
            ImGuiCol::ColumnHovered => 29,
            ImGuiCol::ColumnActive => 30,
            ImGuiCol::ResizeGrip => 31,
            ImGuiCol::ResizeGripHovered => 32,
            ImGuiCol::ResizeGripActive => 33,
            ImGuiCol::CloseButton => 34,
            ImGuiCol::CloseButtonHovered => 35,
            ImGuiCol::CloseButtonActive => 36,
            ImGuiCol::PlotLines => 37,
            ImGuiCol::PlotLinesHovered => 38,
            ImGuiCol::PlotHistogram => 39,
            ImGuiCol::PlotHistogramHovered => 40,
            ImGuiCol::TextSelectedBg => 41,
            ImGuiCol::ModalWindowDarkening => 42,
        }
    }

    /// Computes [`Self::spec_index`]. It indexes a table of the count's length.
    pub fn index(self) -> (r: usize)
        ensures
            r == self.spec_index(),
            r < ImGuiCol_COUNT,
    {
        match self {
            ImGuiCol::Text => 0,
            ImGuiCol::TextDisabled => 1,
            ImGuiCol::WindowBg => 2,
            ImGuiCol::ChildWindowBg => 3,
            ImGuiCol::PopupBg => 4,
            ImGuiCol::Border => 5,
            ImGuiCol::BorderShadow => 6,
            ImGuiCol::FrameBg => 7,
            ImGuiCol::FrameBgHovered => 8,
            ImGuiCol::FrameBgActive => 9,
            ImGuiCol::TitleBg => 10,
            ImGuiCol::TitleBgCollapsed => 11,
            ImGuiCol::TitleBgActive => 12,
            ImGuiCol::MenuBarBg => 13,
            ImGuiCol::ScrollbarBg => 14,
            ImGuiCol::ScrollbarGrab => 15,
            ImGuiCol::ScrollbarGrabHovered => 16,
            ImGuiCol::ScrollbarGrabActive => 17,
            ImGuiCol::ComboBg => 18,
            ImGuiCol::CheckMark => 19,
            ImGuiCol::SliderGrab => 20,
            ImGuiCol::SliderGrabActive => 21,
            ImGuiCol::Button => 22,
            ImGuiCol::ButtonHovered => 23,
            ImGuiCol::ButtonActive => 24,
            ImGuiCol::Header => 25,
            ImGuiCol::HeaderHovered => 26,
            ImGuiCol::HeaderActive => 27,
            ImGuiCol::Column => 28,
            ImGuiCol::ColumnHovered => 29,
            ImGuiCol::ColumnActive => 30,
            ImGuiCol::ResizeGrip => 31,
            ImGuiCol::ResizeGripHovered => 32,
            ImGuiCol::ResizeGripActive => 33,
            ImGuiCol::CloseButton => 34,
            ImGuiCol::CloseButtonHovered => 35,
            ImGuiCol::CloseButtonActive => 36,
            ImGuiCol::PlotLines => 37,
            ImGuiCol::PlotLinesHovered => 38,
            ImGuiCol::PlotHistogram => 39,
            ImGuiCol::PlotHistogramHovered => 40,
            ImGuiCol::TextSelectedBg => 41,
            ImGuiCol::ModalWindowDarkening => 42,
        }
    }

    /// No two variants share a native number.
    pub proof fn lemma_index_injective(a: ImGuiCol, b: ImGuiCol)
        requires
            a.spec_index() == b.spec_index(),
        ensures
            a == b,
    {
    }
}

/// The style variables that can be pushed and popped.
#[derive(Copy, Clone, Debug, PartialEq, Eq, Structural)]
pub enum ImGuiStyleVar {
    Alpha,
    WindowPadding,
    WindowRounding,
    WindowMinSize,
    ChildWindowRounding,
    FramePadding,
    FrameRounding,
    ItemSpacing,
    ItemInnerSpacing,
    IndentSpacing,
    GrabMinSize,
}

impl ImGuiStyleVar {
    /// The native number of the variant.
    pub open spec fn spec_index(self) -> nat {
        match self {
            ImGuiStyleVar::Alpha => 0,
            ImGuiStyleVar::WindowPadding => 1,
            ImGuiStyleVar::WindowRounding => 2,
            ImGuiStyleVar::WindowMinSize => 3,
            ImGuiStyleVar::ChildWindowRounding => 4,
            ImGuiStyleVar::FramePadding => 5,
            ImGuiStyleVar::FrameRounding => 6,
            ImGuiStyleVar::ItemSpacing => 7,
            ImGuiStyleVar::ItemInnerSpacing => 8,
            ImGuiStyleVar::IndentSpacing => 9,
            ImGuiStyleVar::GrabMinSize => 10,
        }
    }

    /// Computes [`Self::spec_index`].
    pub fn index(self) -> (r: usize)
        ensures
            r == self.spec_index(),
            r < 11,
    {
        match self {
            ImGuiStyleVar::Alpha => 0,
            ImGuiStyleVar::WindowPadding => 1,
            ImGuiStyleVar::WindowRounding => 2,
            ImGuiStyleVar::WindowMinSize => 3,
            ImGuiStyleVar::ChildWindowRounding => 4,
            ImGuiStyleVar::FramePadding => 5,
            ImGuiStyleVar::FrameRounding => 6,
            ImGuiStyleVar::ItemSpacing => 7,
            ImGuiStyleVar::ItemInnerSpacing => 8,
            ImGuiStyleVar::IndentSpacing => 9,
            ImGuiStyleVar::GrabMinSize => 10,
        }
    }

    /// No two variants share a native number.
    pub proof fn lemma_index_injective(a: ImGuiStyleVar, b: ImGuiStyleVar)
        requires
            a.spec_index() == b.spec_index(),
        ensures
            a == b,
    {
    }
}

/// Number of variants of [`ImGuiKey`], and length of the native tables that
/// they index.
pub const ImGuiKey_COUNT: usize = 19;

/// The keys that the native library asks the host to map.
#[derive(Copy, Clone, Debug, PartialEq, Eq, Structural)]
pub enum ImGuiKey {
    Tab,
    LeftArrow,
    RightArrow,
    UpArrow,
    DownArrow,
    PageUp,
    PageDown,
    Home,
    End,
    Delete,
    Backspace,
    Enter,
    Escape,
    A,
    C,
    V,
    X,
    Y,
    Z,
}

impl ImGuiKey {
    /// The native number of the variant.
    pub open spec fn spec_index(self) -> nat {
        match self {
            ImGuiKey::Tab => 0,
            ImGuiKey::LeftArrow => 1,
            ImGuiKey::RightArrow => 2,
            ImGuiKey::UpArrow => 3,
            ImGuiKey::DownArrow => 4,
            ImGuiKey::PageUp => 5,
            ImGuiKey::PageDown => 6,
            ImGuiKey::Home => 7,
            ImGuiKey::End => 8,
            ImGuiKey::Delete => 9,
            ImGuiKey::Backspace => 10,
            ImGuiKey::Enter => 11,
            ImGuiKey::Escape => 12,
            ImGuiKey::A => 13,
            ImGuiKey::C => 14,
            ImGuiKey::V => 15,
            ImGuiKey::X => 16,
            ImGuiKey::Y => 17,
            ImGuiKey::Z => 18,
        }
    }

    /// Computes [`Self::spec_index`]. It indexes a table of the count's length.
    pub fn index(self) -> (r: usize)
        ensures
            r == self.spec_index(),
            r < ImGuiKey_COUNT,
    {
        match self {
            ImGuiKey::Tab => 0,
            ImGuiKey::LeftArrow => 1,
            ImGuiKey::RightArrow => 2,
            ImGuiKey::UpArrow => 3,
            ImGuiKey::DownArrow => 4,
            ImGuiKey::PageUp => 5,
            ImGuiKey::PageDown => 6,
            ImGuiKey::Home => 7,
            ImGuiKey::End => 8,
            ImGuiKey::Delete => 9,
            ImGuiKey::Backspace => 10,
            ImGuiKey::Enter => 11,
            ImGuiKey::Escape => 12,
            ImGuiKey::A => 13,
            ImGuiKey::C => 14,
            ImGuiKey::V => 15,
            ImGuiKey::X => 16,
            ImGuiKey::Y => 17,
            ImGuiKey::Z => 18,
        }
    }

    /// No two variants share a native number.
    pub proof fn lemma_index_injective(a: ImGuiKey, b: ImGuiKey)
        requires
            a.spec_index() == b.spec_index(),
        ensures
            a == b,
    {
    }
}

/// How a colour editor shows its value.
#[derive(Copy, Clone, Debug, PartialEq, Eq, Structural)]
pub enum ImGuiColorEditMode {
    UserSelect,
    UserSelectShowButton,
    RGB,
    HSV,
    HEX,
}

impl ImGuiColorEditMode {
    /// The native number of the variant.
    pub open spec fn spec_value(self) -> int {
        match self {
            ImGuiColorEditMode::UserSelect => -2,
            ImGuiColorEditMode::UserSelectShowButton => -1,
            ImGuiColorEditMode::RGB => 0,
            ImGuiColorEditMode::HSV => 1,
            ImGuiColorEditMode::HEX => 2,
        }
    }

    /// Computes [`Self::spec_value`].
    pub fn value(self) -> (r: i32)
        ensures
            r == self.spec_value(),
            -2 <= r <= 2,
    {
        match self {
            ImGuiColorEditMode::UserSelect => -2,
            ImGuiColorEditMode::UserSelectShowButton => -1,
            ImGuiColorEditMode::RGB => 0,
            ImGuiColorEditMode::HSV => 1,
            ImGuiColorEditMode::HEX => 2,
        }
    }

    /// No two variants share a native number.
    pub proof fn lemma_value_injective(a: ImGuiColorEditMode, b: ImGuiColorEditMode)
        requires
            a.spec_value() == b.spec_value(),
        ensures
            a == b,
    {
    }
}

/// Number of variants of [`ImGuiMouseCursor`], and length of the native tables that
/// they index.
pub const ImGuiMouseCursor_COUNT: usize = 7;

/// The shapes of the mouse cursor.
#[derive(Copy, Clone, Debug, PartialEq, Eq, Structural)]
pub enum ImGuiMouseCursor {
    Arrow,
    TextInput,
    Move,
    ResizeNS,
    ResizeEW,
    ResizeNESW,
    ResizeNWSE,
}

impl ImGuiMouseCursor {
    /// The native number of the variant.
    pub open spec fn spec_index(self) -> nat {
        match self {
            ImGuiMouseCursor::Arrow => 0,
            ImGuiMouseCursor::TextInput => 1,
            ImGuiMouseCursor::Move => 2,
            ImGuiMouseCursor::ResizeNS => 3,
            ImGuiMouseCursor::ResizeEW => 4,
            ImGuiMouseCursor::ResizeNESW => 5,
            ImGuiMouseCursor::ResizeNWSE => 6,
        }
    }

    /// Computes [`Self::spec_index`]. It indexes a table of the count's length.
    pub fn index(self) -> (r: usize)
        ensures
            r == self.spec_index(),
            r < ImGuiMouseCursor_COUNT,
    {
        match self {
            ImGuiMouseCursor::Arrow => 0,
            ImGuiMouseCursor::TextInput => 1,
            ImGuiMouseCursor::Move => 2,
            ImGuiMouseCursor::ResizeNS => 3,
            ImGuiMouseCursor::ResizeEW => 4,
            ImGuiMouseCursor::ResizeNESW => 5,
            ImGuiMouseCursor::ResizeNWSE => 6,
        }
    }

    /// No two variants share a native number.
    pub proof fn lemma_index_injective(a: ImGuiMouseCursor, b: ImGuiMouseCursor)
        requires
            a.spec_index() == b.spec_index(),
        ensures
            a == b,
    {
    }
}

} // verus!
