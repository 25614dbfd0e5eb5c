//! Window parameters and what is sent to the native library to begin a
//! window.

use vstd::prelude::*;
use crate::flags::{
    lemma_window_flags_defined, with_bits, within, ImGuiSetCond, ImGuiWindowFlags,
    ImGuiWindowFlags_All, ImGuiWindowFlags_AlwaysAutoResize, ImGuiWindowFlags_HorizontalScrollbar,
    ImGuiWindowFlags_MenuBar, ImGuiWindowFlags_NoBringToFrontOnFocus, ImGuiWindowFlags_NoCollapse,
    ImGuiWindowFlags_NoFocusOnAppearing, ImGuiWindowFlags_NoInputs, ImGuiWindowFlags_NoMove,
    ImGuiWindowFlags_NoResize, ImGuiWindowFlags_NoSavedSettings, ImGuiWindowFlags_NoScrollWithMouse,
    ImGuiWindowFlags_NoScrollbar, ImGuiWindowFlags_NoTitleBar, ImGuiWindowFlags_ShowBorders,
};
use crate::geometry::{ImVec2, F32_MINUS_ONE, F32_ZERO};

verus! {

/// The parameters of a window, gathered before it is begun.
#[must_use]
pub struct WindowParams<'p> {
    pos: (u32, u32),
    pos_cond: ImGuiSetCond,
    size: (u32, u32),
    size_cond: ImGuiSetCond,
    opened: Option<&'p mut bool>,
    bg_alpha: u32,
    flags: ImGuiWindowFlags,
}

/// The mathematical content of a [`WindowParams`].
pub ghost struct WindowParamsView<'p> {
    /// Position, as single-precision bits; applies under `pos_cond`.
    pub pos: (u32, u32),
    pub pos_cond: ImGuiSetCond,
    /// Size, as single-precision bits; applies under `size_cond`.
    pub size: (u32, u32),
    pub size_cond: ImGuiSetCond,
    /// Where the native library reports that the window was closed.
    pub opened: Option<&'p mut bool>,
    /// Background opacity, as single-precision bits.
    pub bg_alpha: u32,
    pub flags: ImGuiWindowFlags,
}

impl<'p> View for WindowParams<'p> {
    type V = WindowParamsView<'p>;

    closed spec fn view(&self) -> WindowParamsView<'p> {
        WindowParamsView {
            pos: self.pos,
            pos_cond: self.pos_cond,
            size: self.size,
            size_cond: self.size_cond,
            opened: self.opened,
            bg_alpha: self.bg_alpha,
            flags: self.flags,
        }
    }
}

impl<'p> WindowParamsView<'p> {
    /// The parameters with the window flag `flag` switched on or off.
    pub open spec fn with_flag(self, flag: i32, value: bool) -> Self {
        WindowParamsView {
            flags: self.flags.spec_with(ImGuiWindowFlags::spec_from_bits_truncate(flag), value),
            ..self
        }
    }
}

/// The native calls that begin a window, with their arguments.
pub struct WindowBegin<'p> {
    /// The position and condition to set ahead of the window, if any.
    pub set_pos: Option<(ImVec2, ImGuiSetCond)>,
    /// The size and condition to set ahead of the window, if any.
    pub set_size: Option<(ImVec2, ImGuiSetCond)>,
    pub name: &'p str,
    pub opened: Option<&'p mut bool>,
    pub size_on_first_use: ImVec2,
    pub bg_alpha: u32,
    pub flags: ImGuiWindowFlags,
}

impl<'p> WindowParams<'p> {
    fn flag(self, flag: i32, value: bool) -> (r: Self)
        requires
            within(flag, ImGuiWindowFlags_All),
        ensures
            r@ == self@.with_flag(flag, value),
            r@.flags@ == with_bits(self@.flags@, flag, value),
    {
        WindowParams {
            flags: self.flags.with(ImGuiWindowFlags::from_bits_truncate(flag), value),
            ..self
        }
    }

    /// Parameters that set no position and no size, watch no close button,
    /// leave the background opacity to the style and switch no flag on.
    pub fn new() -> (r: WindowParams<'p>)
        ensures
            r@ == (WindowParamsView {
                pos: (F32_ZERO, F32_ZERO),
                pos_cond: ImGuiSetCond::spec_from_bits_truncate(0),
                size: (F32_ZERO, F32_ZERO),
                size_cond: ImGuiSetCond::spec_from_bits_truncate(0),
                opened: None,
                bg_alpha: F32_MINUS_ONE,
                flags: ImGuiWindowFlags::spec_from_bits_truncate(0),
            }),
            r@.pos_cond@ == 0,
            r@.size_cond@ == 0,
            r@.flags@ == 0,
    {
        WindowParams {
            pos: (F32_ZERO, F32_ZERO),
            pos_cond: ImGuiSetCond::empty(),
            size: (F32_ZERO, F32_ZERO),
            size_cond: ImGuiSetCond::empty(),
            opened: None,
            bg_alpha: F32_MINUS_ONE,
            flags: ImGuiWindowFlags::empty(),
        }
    }

    /// Sets the position, which applies under `cond`.
    #[inline]
    pub fn position(self, pos: (u32, u32), cond: ImGuiSetCond) -> (r: Self)
        ensures
            r@ == (WindowParamsView { pos: pos, pos_cond: cond, ..self@ }),
    {
        WindowParams { pos: pos, pos_cond: cond, ..self }
    }

    /// Sets the size, which applies under `cond`.
    #[inline]
    pub fn size(self, size: (u32, u32), cond: ImGuiSetCond) -> (r: Self)
        ensures
            r@ == (WindowParamsView { size: size, size_cond: cond, ..self@ }),
    {
        WindowParams { size: size, size_cond: cond, ..self }
    }

    /// Gives the window a close button that reports into `opened`.
    #[inline]
    pub fn opened(self, opened: &'p mut bool) -> (r: Self)
        ensures
            r@ == (WindowParamsView { opened: r@.opened, ..self@ }),
            r@.opened matches Some(target) && *target == *old(opened) && *final(target)
                == *final(opened),
    {
        WindowParams { opened: Some(opened), ..self }
    }

    /// Sets the background opacity.
    #[inline]
    pub fn bg_alpha(self, bg_alpha: u32) -> (r: Self)
        ensures
            r@ == (WindowParamsView { bg_alpha: bg_alpha, ..self@ }),
    {
        WindowParams { bg_alpha: bg_alpha, ..self }
    }

    /// Replaces the whole flag set.
    #[inline]
    pub fn flags(self, flags: ImGuiWindowFlags) -> (r: Self)
        ensures
            r@ == (WindowParamsView { flags: flags, ..self@ }),
    {
        WindowParams { flags: flags, ..self }
    }

    /// Shows or hides the title bar.
    #[inline]
    pub fn title_bar(self, value: bool) -> (r: Self)
        ensures
            r@ == self@.with_flag(ImGuiWindowFlags_NoTitleBar, !value),
            r@.flags@ == with_bits(self@.flags@, ImGuiWindowFlags_NoTitleBar, !value),
    {
        proof {
            lemma_window_flags_defined();
        }
        self.flag(ImGuiWindowFlags_NoTitleBar, !value)
    }

    /// Lets the user resize the window, or not.
    #[inline]
    pub fn resizable(self, value: bool) -> (r: Self)
        ensures
            r@ == self@.with_flag(ImGuiWindowFlags_NoResize, !value),
            r@.flags@ == with_bits(self@.flags@, ImGuiWindowFlags_NoResize, !value),
    {
        proof {
            lemma_window_flags_defined();
        }
        self.flag(ImGuiWindowFlags_NoResize, !value)
    }

    /// Lets the user move the window, or not.
    #[inline]
    pub fn movable(self, value: bool) -> (r: Self)
        ensures
            r@ == self@.with_flag(ImGuiWindowFlags_NoMove, !value),
            r@.flags@ == with_bits(self@.flags@, ImGuiWindowFlags_NoMove, !value),
    {
        proof {
            lemma_window_flags_defined();
        }
        self.flag(ImGuiWindowFlags_NoMove, !value)
    }

    /// Shows or hides the scroll bar.
    #[inline]
    pub fn scroll_bar(self, value: bool) -> (r: Self)
        ensures
            r@ == self@.with_flag(ImGuiWindowFlags_NoScrollbar, !value),
            r@.flags@ == with_bits(self@.flags@, ImGuiWindowFlags_NoScrollbar, !value),
    {
        proof {
            lemma_window_flags_defined();
        }
        self.flag(ImGuiWindowFlags_NoScrollbar, !value)
    }

    /// Lets the mouse wheel scroll the window, or not.
    #[inline]
    pub fn scrollable(self, value: bool) -> (r: Self)
        ensures
            r@ == self@.with_flag(ImGuiWindowFlags_NoScrollWithMouse, !value),
            r@.flags@ == with_bits(self@.flags@, ImGuiWindowFlags_NoScrollWithMouse, !value),
    {
        proof {
            lemma_window_flags_defined();
        }
        self.flag(ImGuiWindowFlags_NoScrollWithMouse, !value)
    }

    /// Lets the user collapse the window, or not.
    #[inline]
    pub fn collapsible(self, value: bool) -> (r: Self)
        ensures
            r@ == self@.with_flag(ImGuiWindowFlags_NoCollapse, !value),
            r@.flags@ == with_bits(self@.flags@, ImGuiWindowFlags_NoCollapse, !value),
    {
        proof {
            lemma_window_flags_defined();
        }
        self.flag(ImGuiWindowFlags_NoCollapse, !value)
    }

    /// Fits the window to its content on every frame, or not.
    #[inline]
    pub fn always_auto_resize(self, value: bool) -> (r: Self)
        ensures
            r@ == self@.with_flag(ImGuiWindowFlags_AlwaysAutoResize, value),
            r@.flags@ == with_bits(self@.flags@, ImGuiWindowFlags_AlwaysAutoResize, value),
    {
        proof {
            lemma_window_flags_defined();
        }
        self.flag(ImGuiWindowFlags_AlwaysAutoResize, value)
    }

    /// Draws borders around the window and its items, or not.
    #[inline]
    pub fn show_borders(self, value: bool) -> (r: Self)
        ensures
            r@ == self@.with_flag(ImGuiWindowFlags_ShowBorders, value),
            r@.flags@ == with_bits(self@.flags@, ImGuiWindowFlags_ShowBorders, value),
    {
        proof {
            lemma_window_flags_defined();
        }
        self.flag(ImGuiWindowFlags_ShowBorders, value)
    }

    /// Keeps the window's settings in the settings file, or not.
    #[inline]
    pub fn save_settings(self, value: bool) -> (r: Self)
        ensures
            r@ == self@.with_flag(ImGuiWindowFlags_NoSavedSettings, !value),
            r@.flags@ == with_bits(self@.flags@, ImGuiWindowFlags_NoSavedSettings, !value),
    {
        proof {
            lemma_window_flags_defined();
        }
        self.flag(ImGuiWindowFlags_NoSavedSettings, !value)
    }

    /// Lets the window catch the mouse and the keyboard, or not.
    #[inline]
    pub fn inputs(self, value: bool) -> (r: Self)
        ensures
            r@ == self@.with_flag(ImGuiWindowFlags_NoInputs, !value),
            r@.flags@ == with_bits(self@.flags@, ImGuiWindowFlags_NoInputs, !value),
    {
        proof {
            lemma_window_flags_defined();
        }
        self.flag(ImGuiWindowFlags_NoInputs, !value)
    }

    /// Gives the window a menu bar, or not.
    #[inline]
    pub fn menu_bar(self, value: bool) -> (r: Self)
        ensures
            r@ == self@.with_flag(ImGuiWindowFlags_MenuBar, value),
            r@.flags@ == with_bits(self@.flags@, ImGuiWindowFlags_MenuBar, value),
    {
        proof {
            lemma_window_flags_defined();
        }
        self.flag(ImGuiWindowFlags_MenuBar, value)
    }

    /// Lets a horizontal scroll bar appear, or not.
    #[inline]
    pub fn horizontal_scrollbar(self, value: bool) -> (r: Self)
        ensures
            r@ == self@.with_flag(ImGuiWindowFlags_HorizontalScrollbar, value),
            r@.flags@ == with_bits(self@.flags@, ImGuiWindowFlags_HorizontalScrollbar, value),
    {
        proof {
            lemma_window_flags_defined();
        }
        self.flag(ImGuiWindowFlags_HorizontalScrollbar, value)
    }

    /// Keeps the window from taking the focus when it appears, or not.
    #[inline]
    pub fn no_focus_on_appearing(self, value: bool) -> (r: Self)
        ensures
            r@ == self@.with_flag(ImGuiWindowFlags_NoFocusOnAppearing, value),
            r@.flags@ == with_bits(self@.flags@, ImGuiWindowFlags_NoFocusOnAppearing, value),
    {
        proof {
            lemma_window_flags_defined();
        }
        self.flag(ImGuiWindowFlags_NoFocusOnAppearing, value)
    }

    /// Keeps the window from coming to the front when it takes the focus, or not.
    #[inline]
    pub fn no_bring_to_front_on_focus(self, value: bool) -> (r: Self)
        ensures
            r@ == self@.with_flag(ImGuiWindowFlags_NoBringToFrontOnFocus, value),
            r@.flags@ == with_bits(self@.flags@, ImGuiWindowFlags_NoBringToFrontOnFocus, value),
    {
        proof {
            lemma_window_flags_defined();
        }
        self.flag(ImGuiWindowFlags_NoBringToFrontOnFocus, value)
    }
}

/// What begins the window `name` under `params`: the position and the size
/// are set ahead of it exactly where their conditions are not empty.
pub open spec fn spec_window<'p>(name: &'p str, params: WindowParamsView<'p>) -> WindowBegin<'p> {
    WindowBegin {
        set_pos: if params.pos_cond@ != 0 {
            Some((ImVec2 { x: params.pos.0, y: params.pos.1 }, params.pos_cond))
        } else {
            None
        },
        set_size: if params.size_cond@ != 0 {
            Some((ImVec2 { x: params.size.0, y: params.size.1 }, params.size_cond))
        } else {
            None
        },
        name: name,
        opened: params.opened,
        size_on_first_use: ImVec2 { x: F32_ZERO, y: F32_ZERO },
        bg_alpha: params.bg_alpha,
        flags: params.flags,
    }
}

/// Computes [`spec_window`].
pub fn window<'p>(name: &'p str, params: WindowParams<'p>) -> (r: WindowBegin<'p>)
    ensures
        r == spec_window(name, params@),
{
    let set_pos = if !params.pos_cond.is_empty() {
        Some((ImVec2::from(params.pos), params.pos_cond))
    } else {
        None
    };
    let set_size = if !params.size_cond.is_empty() {
        Some((ImVec2::from(params.size), params.size_cond))
    } else {
        None
    };
    WindowBegin {
        set_pos,
        set_size,
        name,
        opened: params.opened,
        size_on_first_use: ImVec2::new(F32_ZERO, F32_ZERO),
        bg_alpha: params.bg_alpha,
        flags: params.flags,
    }
}

} // verus!
