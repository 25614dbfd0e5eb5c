//! Verified host-side core of a binding to an immediate-mode GUI library.
//!
//! The native library owns layout, hit-testing and rendering. This crate holds
//! what the host decides before and after each native call: flag sets and
//! enumerations with their native numbers, widget builders, the frame
//! lifecycle, and the small conversions that feed the foreign interface.
//!
//! No native call is made here. A builder or an option set ends in a *call*:
//! a plain record of the arguments that the native function is to receive,
//! which the caller passes on. A scope (window, menu, popup) is driven from
//! outside: the caller makes the begin call, hands its result in, and is told
//! whether to make the end call.
//!
//! Floating-point parameters are carried as IEEE-754 single-precision bit
//! patterns (`u32`): nothing here computes on them.

pub mod context;
pub mod convert;
pub mod drag;
pub mod enums;
pub mod flags;
pub mod geometry;
pub mod input;
pub mod menus;
pub mod plotlines;
pub mod scope;
pub mod text;
pub mod vertex;
pub mod widgets;
pub mod window;

pub use context::{
    framebuffer_scale, texture_len, AxisScale, DrawList, FrameSetup, ImDrawIdx, ImGui,
    TextureHandle, Ui, UiView,
};
pub use convert::to_c_int;
pub use drag::{
    DragFloat, DragFloat2, DragFloat3, DragFloat4, DragFloatCall, DragFloatN, DragFloatNCall,
    DragFloatRange2, DragFloatRange2Call, DragInt, DragInt2, DragInt3, DragInt4, DragIntCall,
    DragIntN, DragIntNCall, DragIntRange2, DragIntRange2Call,
};
pub use enums::{
    ImGuiCol, ImGuiCol_COUNT, ImGuiColorEditMode, ImGuiKey, ImGuiKey_COUNT, ImGuiMouseCursor,
    ImGuiMouseCursor_COUNT, ImGuiStyleVar,
};
pub use flags::{
    ImGuiAlign, ImGuiInputTextFlags, ImGuiSelectableFlags, ImGuiSetCond, ImGuiTreeNodeFlags,
    ImGuiWindowFlags,
};
pub use geometry::{ImVec2, ImVec4, F32_MAX, F32_MINUS_ONE, F32_ONE, F32_ZERO};
pub use input::{
    InputFloatCall, InputFloatNCall, InputFloatOptions, InputIntCall, InputIntNCall,
    InputIntOptions, InputTextCall, InputTextOptions,
};
pub use menus::{menu, MenuItem, MenuItemCall};
pub use plotlines::{PlotLines, PlotLinesCall, PLOT_VALUE_STRIDE};
pub use scope::{run_scope, ScopeKind, ScopeStep};
pub use text::{contains_nul, get_version, text_of};
pub use vertex::{build_bindings, AttributeKind, VertexBinding, DRAW_VERT_SIZE};
pub use widgets::ItemsCall;
pub use window::{window, WindowBegin, WindowParams, WindowParamsView};
