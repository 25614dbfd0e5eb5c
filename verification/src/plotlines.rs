//! Builder of the line plot.

use vstd::prelude::*;
use crate::convert::{c_int_of, to_c_int};
use crate::geometry::{ImVec2, F32_MAX, F32_ZERO};

verus! {

/// Distance in bytes from one plotted value to the next.
pub const PLOT_VALUE_STRIDE: i32 = 4;

/// The native call of a line plot. The values are single-precision bits.
pub struct PlotLinesCall<'p> {
    pub label: &'p str,
    pub values: &'p [u32],
    /// The number of values, as the native `int`.
    pub values_count: i32,
    /// Index of the value that is plotted first, as the native `int`.
    pub values_offset: i32,
    /// Text drawn over the plot, if any.
    pub overlay_text: Option<&'p str>,
    /// Lower end of the scale, as single-precision bits; the largest finite
    /// number asks for the minimum of the values.
    pub scale_min: u32,
    /// Upper end of the scale, likewise.
    pub scale_max: u32,
    pub graph_size: ImVec2,
    /// Distance in bytes from one value to the next.
    pub stride: i32,
}

/// Builder of a line plot. Its view is the call that it stands for.
#[must_use]
pub struct PlotLines<'p> {
    label: &'p str,
    values: &'p [u32],
    values_offset: usize,
    overlay_text: Option<&'p str>,
    scale_min: u32,
    scale_max: u32,
    graph_size: ImVec2,
}

impl<'p> View for PlotLines<'p> {
    type V = PlotLinesCall<'p>;

    /// The call that the builder stands for: its fields, the count and the
    /// offset as native integers, and the stride of the values.
    closed spec fn view(&self) -> PlotLinesCall<'p> {
        PlotLinesCall {
            label: self.label,
            values: self.values,
            values_count: c_int_of(self.values.len()),
            values_offset: c_int_of(self.values_offset),
            overlay_text: self.overlay_text,
            scale_min: self.scale_min,
            scale_max: self.scale_max,
            graph_size: self.graph_size,
            stride: PLOT_VALUE_STRIDE,
        }
    }
}

impl<'p> PlotLines<'p> {
    /// The call of a plot of all of `values` from the first on, with no
    /// overlay, scales that follow the values and a size left to the layout.
    pub open spec fn spec_new(label: &'p str, values: &'p [u32]) -> PlotLinesCall<'p> {
        PlotLinesCall {
            label: label,
            values: values,
            values_count: c_int_of(values@.len() as usize),
            values_offset: 0,
            overlay_text: None,
            scale_min: F32_MAX,
            scale_max: F32_MAX,
            graph_size: ImVec2 { x: F32_ZERO, y: F32_ZERO },
            stride: PLOT_VALUE_STRIDE,
        }
    }

    /// A builder of [`Self::spec_new`].
    pub fn new(label: &'p str, values: &'p [u32]) -> (r: Self)
        ensures
            r@ == Self::spec_new(label, values),
    {
        PlotLines {
            label: label,
            values: values,
            values_offset: 0usize,
            overlay_text: None,
            scale_min: F32_MAX,
            scale_max: F32_MAX,
            graph_size: ImVec2::new(F32_ZERO, F32_ZERO),
        }
    }

    /// Sets the index of the value that is plotted first. It reaches the
    /// call unchanged where it fits the native `int`.
    #[inline]
    pub fn values_offset(self, values_offset: usize) -> (r: Self)
        ensures
            r@ == (PlotLinesCall { values_offset: c_int_of(values_offset), ..self@ }),
            values_offset <= i32::MAX ==> r@.values_offset == values_offset,
    {
        PlotLines { values_offset: values_offset, ..self }
    }

    /// Draws `overlay_text` over the plot.
    #[inline]
    pub fn overlay_text(self, overlay_text: &'p str) -> (r: Self)
        ensures
            r@ == (PlotLinesCall { overlay_text: Some(overlay_text), ..self@ }),
    {
        PlotLines { overlay_text: Some(overlay_text), ..self }
    }

    /// Sets the lower end of the scale.
    #[inline]
    pub fn scale_min(self, scale_min: u32) -> (r: Self)
        ensures
            r@ == (PlotLinesCall { scale_min: scale_min, ..self@ }),
    {
        PlotLines { scale_min: scale_min, ..self }
    }

    /// Sets the upper end of the scale.
    #[inline]
    pub fn scale_max(self, scale_max: u32) -> (r: Self)
        ensures
            r@ == (PlotLinesCall { scale_max: scale_max, ..self@ }),
    {
        PlotLines { scale_max: scale_max, ..self }
    }

    /// Sets the size of the plot.
    #[inline]
    pub fn graph_size(self, graph_size: ImVec2) -> (r: Self)
        ensures
            r@ == (PlotLinesCall { graph_size: graph_size, ..self@ }),
    {
        PlotLines { graph_size: graph_size, ..self }
    }

    /// Hands over the call that was gathered. The count is the number of
    /// values wherever that fits the native `int`.
    pub fn build(self) -> (r: PlotLinesCall<'p>)
        ensures
            r == self@,
            r.values_count == c_int_of(r.values@.len() as usize),
            r.values@.len() <= i32::MAX ==> r.values_count == r.values@.len(),
            r.stride == PLOT_VALUE_STRIDE,
    {
        PlotLinesCall {
            label: self.label,
            values: self.values,
            values_count: to_c_int(self.values.len()),
            values_offset: to_c_int(self.values_offset),
            overlay_text: self.overlay_text,
            scale_min: self.scale_min,
            scale_max: self.scale_max,
            graph_size: self.graph_size,
            stride: PLOT_VALUE_STRIDE,
        }
    }
}

} // verus!
