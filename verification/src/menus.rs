//! Menus and their items.

use core::marker::PhantomData;
use vstd::prelude::*;
use crate::context::Ui;
use crate::scope::{run_scope, ScopeKind};

verus! {

/// Runs the body `f` of a menu whose begin call returned `render`; the
/// result tells whether the menu is to be ended, which is exactly when it
/// was rendered.
#[inline]
pub fn menu<F: FnOnce()>(render: bool, f: F) -> (end: bool)
    requires
        render ==> call_requires(f, ()),
    ensures
        end == render,
        render ==> call_ensures(f, (), ()),
{
    run_scope(ScopeKind::Menu, render, f)
}

/// The native call of a menu item.
pub struct MenuItemCall<'p> {
    pub label: &'p str,
    /// The keyboard shortcut shown beside the label, if any.
    pub shortcut: Option<&'p str>,
    /// Where the item's check mark is read and toggled, if it has one.
    pub selected: Option<&'p mut bool>,
    pub enabled: bool,
}

/// Builder of a menu item. Its view is the call that it stands for.
#[must_use]
pub struct MenuItem<'ui, 'p> {
    label: &'p str,
    shortcut: Option<&'p str>,
    selected: Option<&'p mut bool>,
    enabled: bool,
    _phantom: PhantomData<&'ui Ui<'ui>>,
}

impl<'ui, 'p> View for MenuItem<'ui, 'p> {
    type V = MenuItemCall<'p>;

    /// The call that the builder stands for.
    closed spec fn view(&self) -> MenuItemCall<'p> {
        MenuItemCall {
            label: self.label,
            shortcut: self.shortcut,
            selected: self.selected,
            enabled: self.enabled,
        }
    }
}

impl<'ui, 'p> MenuItem<'ui, 'p> {
    /// The call of an enabled item with no shortcut and no check mark.
    pub open spec fn spec_new(label: &'p str) -> MenuItemCall<'p> {
        MenuItemCall { label: label, shortcut: None, selected: None, enabled: true }
    }

    /// A builder of [`Self::spec_new`].
    pub fn new(label: &'p str) -> (r: Self)
        ensures
            r@ == Self::spec_new(label),
    {
        MenuItem {
            label: label,
            shortcut: None,
            selected: None,
            enabled: true,
            _phantom: PhantomData,
        }
    }

    /// Shows the keyboard shortcut `shortcut` beside the label.
    #[inline]
    pub fn shortcut(self, shortcut: &'p str) -> (r: Self)
        ensures
            r@ == (MenuItemCall { shortcut: Some(shortcut), ..self@ }),
    {
        MenuItem { shortcut: Some(shortcut), ..self }
    }

    /// Gives the item a check mark that lives in `selected`.
    #[inline]
    pub fn selected(self, selected: &'p mut bool) -> (r: Self)
        ensures
            r@ == (MenuItemCall { selected: r@.selected, ..self@ }),
            r@.selected matches Some(target) && *target == *old(selected) && *final(target)
                == *final(selected),
    {
        MenuItem { selected: Some(selected), ..self }
    }

    /// Enables or disables the item.
    #[inline]
    pub fn enabled(self, enabled: bool) -> (r: Self)
        ensures
            r@ == (MenuItemCall { enabled: enabled, ..self@ }),
    {
        MenuItem { enabled: enabled, ..self }
    }

    /// Hands over the call that was gathered.
    pub fn build(self) -> (r: MenuItemCall<'p>)
        ensures
            r == self@,
    {
        MenuItemCall {
            label: self.label,
            shortcut: self.shortcut,
            selected: self.selected,
            enabled: self.enabled,
        }
    }
}

} // verus!
