//! What a frame token offers beyond ending the frame: the builders that
//! start from it and the scopes that it opens.

use vstd::prelude::*;
use crate::context::Ui;
use crate::convert::{c_int_of, to_c_int};
use crate::menus::MenuItem;
use crate::plotlines::PlotLines;
use crate::scope::{run_scope, ScopeKind};

verus! {

/// The native call of a widget that picks one of `items`: a combo or a list
/// box.
pub struct ItemsCall<'p> {
    pub label: &'p str,
    /// Index of the item that is picked, changed in place by the widget.
    pub current_item: &'p mut i32,
    pub items: &'p [&'p str],
    /// The number of items, as the native `int`.
    pub items_count: i32,
    /// How many items are shown at once; negative for the native default.
    pub height_in_items: i32,
}

impl<'ui> Ui<'ui> {
    /// Runs the body `f` of the main menu bar after its begin call returned
    /// `render`; the result tells whether the bar is to be ended.
    pub fn main_menu_bar<F: FnOnce()>(&self, render: bool, f: F) -> (end: bool)
        requires
            render ==> call_requires(f, ()),
        ensures
            end == render,
            render ==> call_ensures(f, (), ()),
    {
        run_scope(ScopeKind::MainMenuBar, render, f)
    }

    /// Runs the body `f` of a window's menu bar after its begin call returned
    /// `render`; the result tells whether the bar is to be ended.
    pub fn menu_bar<F: FnOnce()>(&self, render: bool, f: F) -> (end: bool)
        requires
            render ==> call_requires(f, ()),
        ensures
            end == render,
            render ==> call_ensures(f, (), ()),
    {
        run_scope(ScopeKind::MenuBar, render, f)
    }

    /// Runs the body `f` of a popup after its begin call returned `render`;
    /// the result tells whether the popup is to be ended.
    pub fn popup<F: FnOnce()>(&self, render: bool, f: F) -> (end: bool)
        requires
            render ==> call_requires(f, ()),
        ensures
            end == render,
            render ==> call_ensures(f, (), ()),
    {
        run_scope(ScopeKind::Popup, render, f)
    }

    /// The call of a combo over `items`. The count is the number of items
    /// wherever that fits the native `int`.
    pub fn combo<'p>(
        &self,
        label: &'p str,
        current_item: &'p mut i32,
        items: &'p [&'p str],
        height_in_items: i32,
    ) -> (r: ItemsCall<'p>)
        ensures
            r == (ItemsCall {
                label,
                current_item: r.current_item,
                items,
                items_count: c_int_of(items@.len() as usize),
                height_in_items,
            }),
            items@.len() <= i32::MAX ==> r.items_count == items@.len(),
            *r.current_item == *old(current_item),
            *final(r.current_item) == *final(current_item),
    {
        ItemsCall {
            label,
            current_item,
            items,
            items_count: to_c_int(items.len()),
            height_in_items,
        }
    }

    /// The call of a list box over `items`. The count is the number of items
    /// wherever that fits the native `int`.
    pub fn list_box<'p>(
        &self,
        label: &'p str,
        current_item: &'p mut i32,
        items: &'p [&'p str],
        height_in_items: i32,
    ) -> (r: ItemsCall<'p>)
        ensures
            r == (ItemsCall {
                label,
                current_item: r.current_item,
                items,
                items_count: c_int_of(items@.len() as usize),
                height_in_items,
            }),
            items@.len() <= i32::MAX ==> r.items_count == items@.len(),
            *r.current_item == *old(current_item),
            *final(r.current_item) == *final(current_item),
    {
        ItemsCall {
            label,
            current_item,
            items,
            items_count: to_c_int(items.len()),
            height_in_items,
        }
    }

    /// A builder of the menu item `label`, with the defaults of
    /// [`MenuItem::spec_new`].
    pub fn menu_item<'p>(&self, label: &'p str) -> (r: MenuItem<'ui, 'p>)
        ensures
            r@ == MenuItem::<'ui, 'p>::spec_new(label),
    {
        MenuItem::new(label)
    }

    /// A builder of a plot of `values` under `label`, with the defaults of
    /// [`PlotLines::spec_new`].
    pub fn plot_lines<'p>(&self, label: &'p str, values: &'p [u32]) -> (r: PlotLines<'p>)
        ensures
            r@ == PlotLines::spec_new(label, values),
    {
        PlotLines::new(label, values)
    }
}

} // verus!
