//! The host-side context: the file names that it owns as C strings, the
//! frame token, and the values computed when a frame begins or ends.

use vstd::prelude::*;
use vstd::string::StringSliceAdditionalSpecFns;
use crate::text::{c_string_bytes, is_c_string, to_c_string};

verus! {

/// Index type of the native index buffers.
pub type ImDrawIdx = u16;

/// How one axis of the framebuffer scale follows from the sizes given to a
/// frame. The quotient itself is a floating-point division left to the caller.
#[derive(Clone, Copy, Debug, PartialEq, Eq, Structural)]
pub enum AxisScale {
    /// The axis has no extent in points: the scale is zero.
    Zero,
    /// The scale is `pixels / points`; `points` is positive.
    Ratio { pixels: u32, points: u32 },
}

/// The scale of one axis: the ratio of pixels to points where there are
/// points, zero otherwise.
pub open spec fn axis_scale(points: u32, pixels: u32) -> AxisScale {
    if points > 0 {
        AxisScale::Ratio { pixels, points }
    } else {
        AxisScale::Zero
    }
}

impl AxisScale {
    /// True when the scale can be taken: a `Ratio` has a divisor above zero.
    pub open spec fn has_quotient(self) -> bool {
        self matches AxisScale::Ratio { points, .. } ==> points > 0
    }
}

/// Computes [`axis_scale`]. A `Ratio` never has a zero divisor.
pub fn framebuffer_scale(points: u32, pixels: u32) -> (r: AxisScale)
    ensures
        r == axis_scale(points, pixels),
        r.has_quotient(),
{
    if points > 0 {
        AxisScale::Ratio { pixels, points }
    } else {
        AxisScale::Zero
    }
}

/// What the native input/output block receives when a frame begins.
#[derive(Clone, Copy, Debug)]
pub struct FrameSetup {
    /// Display size in points, `(x, y)`.
    pub display_size: (u32, u32),
    /// Framebuffer scale along x.
    pub scale_x: AxisScale,
    /// Framebuffer scale along y.
    pub scale_y: AxisScale,
    /// Seconds since the previous frame, as single-precision bits.
    pub delta_time: u32,
}

/// The setup of a frame of `size_points` points drawn on `size_pixels` pixels.
pub open spec fn spec_frame_setup(
    size_points: (u32, u32),
    size_pixels: (u32, u32),
    delta_time: u32,
) -> FrameSetup {
    FrameSetup {
        display_size: size_points,
        scale_x: axis_scale(size_points.0, size_pixels.0),
        scale_y: axis_scale(size_points.1, size_pixels.1),
        delta_time,
    }
}

/// The byte length of a texture of `width` by `height` texels, or `None` where
/// a dimension is negative or the product leaves the range of the native
/// `int` in which it is computed.
pub open spec fn spec_texture_len(width: int, height: int, bytes_per_pixel: int) -> Option<int> {
    if 0 <= width && 0 <= height && 0 <= bytes_per_pixel && width * height <= i32::MAX && width
        * height * bytes_per_pixel <= i32::MAX {
        Some(width * height * bytes_per_pixel)
    } else {
        None
    }
}

/// Computes [`spec_texture_len`].
pub fn texture_len(width: i32, height: i32, bytes_per_pixel: i32) -> (r: Option<usize>)
    ensures
        match spec_texture_len(width as int, height as int, bytes_per_pixel as int) {
            Some(n) => r == Some(n as usize) && n <= usize::MAX,
            None => r is None,
        },
{
    if width < 0 || height < 0 || bytes_per_pixel < 0 {
        return None;
    }
    assert(0 <= width * height) by (nonlinear_arith)
        requires
            0 <= width,
            0 <= height,
    ;
    match width.checked_mul(height) {
        None => None,
        Some(texels) => {
            assert(0 <= texels * bytes_per_pixel) by (nonlinear_arith)
                requires
                    0 <= texels,
                    0 <= bytes_per_pixel,
            ;
            match texels.checked_mul(bytes_per_pixel) {
                None => None,
                Some(bytes) => Some(bytes as usize),
            }
        },
    }
}

/// A borrowed view of the font atlas texture: `pixels` holds `width * height`
/// texels of a fixed number of bytes each, row after row.
pub struct TextureHandle<'a> {
    pub width: u32,
    pub height: u32,
    pub pixels: &'a [u8],
}

/// One command list of a rendered frame, as three borrowed buffers. `C` and
/// `V` are the native command and vertex records, which this crate does not
/// look into.
pub struct DrawList<'a, C, V> {
    pub cmd_buffer: &'a [C],
    pub idx_buffer: &'a [ImDrawIdx],
    pub vtx_buffer: &'a [V],
}

/// The mathematical content of an [`ImGui`].
pub ghost struct ImGuiView {
    /// The owned settings-file name, as C-string bytes.
    pub ini_filename: Option<Seq<u8>>,
    /// The owned log-file name, as C-string bytes.
    pub log_filename: Option<Seq<u8>>,
    /// Whether the single frame slot is occupied.
    pub frame_active: bool,
}

/// The host's handle on the one native context.
///
/// It keeps alive the C-string buffers whose addresses the native library
/// holds, and records whether the frame slot is occupied.
pub struct ImGui {
    ini_filename: Option<Vec<u8>>,
    log_filename: Option<Vec<u8>>,
    frame_active: bool,
}

/// The token of the frame in progress. It borrows the context exclusively, so
/// that no second frame can begin while it lives, and only
/// [`ImGui::frame`] makes one.
pub struct Ui<'ui> {
    imgui: &'ui mut ImGui,
    setup: FrameSetup,
}

/// The mathematical content of a [`Ui`].
pub ghost struct UiView<'ui> {
    /// The borrow of the context that the frame holds.
    pub imgui: &'ui mut ImGui,
    /// What the native library is told about the display.
    pub setup: FrameSetup,
}

impl<'ui> View for Ui<'ui> {
    type V = UiView<'ui>;

    closed spec fn view(&self) -> UiView<'ui> {
        UiView { imgui: self.imgui, setup: self.setup }
    }
}

impl View for ImGui {
    type V = ImGuiView;

    closed spec fn view(&self) -> ImGuiView {
        ImGuiView {
            ini_filename: match self.ini_filename {
                Some(buffer) => Some(buffer@),
                None => None,
            },
            log_filename: match self.log_filename {
                Some(buffer) => Some(buffer@),
                None => None,
            },
            frame_active: self.frame_active,
        }
    }
}

impl ImGui {
    #[verifier::type_invariant]
    closed spec fn well_formed(&self) -> bool {
        &&& self.ini_filename matches Some(buffer) ==> is_c_string(buffer@)
        &&& self.log_filename matches Some(buffer) ==> is_c_string(buffer@)
    }

    /// A context with no file names and an empty frame slot.
    pub fn init() -> (r: ImGui)
        ensures
            r@ == (ImGuiView { ini_filename: None, log_filename: None, frame_active: false }),
    {
        ImGui { ini_filename: None, log_filename: None, frame_active: false }
    }

    /// The buffer to hand to the native library as the settings-file name.
    pub fn ini_filename_bytes(&self) -> (r: Option<&Vec<u8>>)
        ensures
            match r {
                Some(buffer) => self@.ini_filename == Some(buffer@) && is_c_string(buffer@),
                None => self@.ini_filename is None,
            },
    {
        proof {
            use_type_invariant(self);
        }
        self.ini_filename.as_ref()
    }

    /// The buffer to hand to the native library as the log-file name.
    pub fn log_filename_bytes(&self) -> (r: Option<&Vec<u8>>)
        ensures
            match r {
                Some(buffer) => self@.log_filename == Some(buffer@) && is_c_string(buffer@),
                None => self@.log_filename is None,
            },
    {
        proof {
            use_type_invariant(self);
        }
        self.log_filename.as_ref()
    }

    /// Whether the frame slot is occupied.
    pub fn frame_active(&self) -> (r: bool)
        ensures
            r == self@.frame_active,
    {
        self.frame_active
    }

    /// Replaces the settings-file name by the C string of `value`, or drops it.
    pub fn set_ini_filename(&mut self, value: Option<&str>)
        requires
            value matches Some(s) ==> !s.spec_bytes().contains(0u8),
        ensures
            final(self)@ == (ImGuiView {
                ini_filename: match value {
                    Some(s) => Some(c_string_bytes(s@)),
                    None => None,
                },
                ..old(self)@
            }),
    {
        proof {
            use_type_invariant(&*self);
        }
        match value {
            Some(s) => {
                self.ini_filename = Some(to_c_string(s));
            },
            None => {
                self.ini_filename = None;
            },
        }
    }

    /// Replaces the log-file name by the C string of `value`, or drops it.
    pub fn set_log_filename(&mut self, value: Option<&str>)
        requires
            value matches Some(s) ==> !s.spec_bytes().contains(0u8),
        ensures
            final(self)@ == (ImGuiView {
                log_filename: match value {
                    Some(s) => Some(c_string_bytes(s@)),
                    None => None,
                },
                ..old(self)@
            }),
    {
        proof {
            use_type_invariant(&*self);
        }
        match value {
            Some(s) => {
                self.log_filename = Some(to_c_string(s));
            },
            None => {
                self.log_filename = None;
            },
        }
    }

    /// The text to queue as keyboard input for `character`: that one
    /// character. The context is left as it was.
    pub fn add_input_character(&mut self, character: char) -> (r: String)
        ensures
            r@ == seq![character],
            *final(self) == *old(self),
    {
        let mut string = String::new();
        string.push(character);
        string
    }

    /// Builds the handle on a texture of `width` by `height` texels of
    /// `bytes_per_pixel` bytes each, whose data is `pixels`, and hands it to
    /// `f`. The context is left as it was.
    pub fn prepare_texture<'a, F, T>(
        &mut self,
        width: i32,
        height: i32,
        bytes_per_pixel: i32,
        pixels: &'a [u8],
        f: F,
    ) -> (r: T) where F: FnOnce(TextureHandle<'a>) -> T
        requires
            spec_texture_len(width as int, height as int, bytes_per_pixel as int) == Some(
                pixels@.len() as int,
            ),
            call_requires(
                f,
                (TextureHandle { width: width as u32, height: height as u32, pixels },),
            ),
        ensures
            call_ensures(
                f,
                (TextureHandle { width: width as u32, height: height as u32, pixels },),
                r,
            ),
            width as u32 == width,
            height as u32 == height,
            *final(self) == *old(self),
    {
        f(TextureHandle { width: width as u32, height: height as u32, pixels })
    }

    /// Begins a frame: occupies the frame slot and returns the token, which
    /// carries what the native library is to be told about the display.
    pub fn frame<'ui>(
        &'ui mut self,
        size_points: (u32, u32),
        size_pixels: (u32, u32),
        delta_time: u32,
    ) -> (ui: Ui<'ui>)
        ensures
            ui@.setup == spec_frame_setup(size_points, size_pixels, delta_time),
            ui@.imgui@ == (ImGuiView { frame_active: true, ..old(self)@ }),
            *final(self) == *final(ui@.imgui),
    {
        proof {
            use_type_invariant(&*self);
        }
        self.frame_active = true;
        let setup = FrameSetup {
            display_size: size_points,
            scale_x: framebuffer_scale(size_points.0, size_pixels.0),
            scale_y: framebuffer_scale(size_points.1, size_pixels.1),
            delta_time,
        };
        Ui { imgui: self, setup }
    }

    /// Empties the frame slot, as when the context is torn down.
    pub fn shutdown(&mut self)
        ensures
            final(self)@ == (ImGuiView { frame_active: false, ..old(self)@ }),
    {
        proof {
            use_type_invariant(&*self);
        }
        self.frame_active = false;
    }
}

impl<'ui> Ui<'ui> {
    #[verifier::type_invariant]
    closed spec fn scales_have_quotients(&self) -> bool {
        &&& self.setup.scale_x.has_quotient()
        &&& self.setup.scale_y.has_quotient()
    }

    /// The context that this frame borrows.
    pub fn imgui(&self) -> (r: &ImGui)
        ensures
            *r == *self@.imgui,
    {
        &*self.imgui
    }

    /// What the native library is to be told about the display. Neither
    /// scale has a zero divisor.
    pub fn setup(&self) -> (r: FrameSetup)
        ensures
            r == self@.setup,
            r.scale_x.has_quotient(),
            r.scale_y.has_quotient(),
    {
        proof {
            use_type_invariant(self);
        }
        self.setup
    }

    /// Ends the frame: hands each draw list to `f` in order, stopping at the
    /// first error. Whether the calls succeeded or one failed, the frame is
    /// over and the frame slot is emptied.
    #[verifier::loop_isolation(false)]
    pub fn render<'a, C, V, F, E>(self, draw_lists: &[DrawList<'a, C, V>], mut f: F) -> (r: Result<
        (),
        E,
    >) where F: FnMut(&Ui, DrawList<'a, C, V>) -> Result<(), E>
        requires
            forall|i: int|
                0 <= i < draw_lists.len() ==> call_requires(f, (&self, #[trigger] draw_lists[i])),
        ensures
            r is Ok ==> forall|i: int|
                0 <= i < draw_lists.len() ==> call_ensures(
                    f,
                    (&self, #[trigger] draw_lists[i]),
                    Ok(()),
                ),
            r matches Err(error) ==> exists|i: int|
                {
                    &&& 0 <= i < draw_lists.len()
                    &&& call_ensures(f, (&self, #[trigger] draw_lists[i]), Err(error))
                    &&& forall|j: int|
                        0 <= j < i ==> call_ensures(
                            f,
                            (&self, #[trigger] draw_lists[j]),
                            Ok(()),
                        )
                },
            final(self@.imgui)@ == (ImGuiView { frame_active: false, ..self@.imgui@ }),
    {
        let ghost callback = f;
        let ghost token = self;
        let count = draw_lists.len();
        let mut i: usize = 0;
        while i < count
            invariant
                f == callback,
                self == token,
                count == draw_lists.len(),
                i <= count,
                forall|j: int|
                    0 <= j < i ==> call_ensures(
                        callback,
                        (&token, #[trigger] draw_lists[j]),
                        Ok(()),
                    ),
            decreases count - i,
        {
            let list = &draw_lists[i];
            let draw_list = DrawList {
                cmd_buffer: list.cmd_buffer,
                idx_buffer: list.idx_buffer,
                vtx_buffer: list.vtx_buffer,
            };
            assert(draw_list == draw_lists[i as int]);
            match f(&self, draw_list) {
                Ok(done) => {
                    assert(done == ());
                },
                Err(error) => {
                    proof {
                        use_type_invariant(&self);
                        use_type_invariant(&*self.imgui);
                    }
                    self.imgui.frame_active = false;
                    return Err(error);
                },
            }
            i += 1;
        }
        proof {
            use_type_invariant(&self);
            use_type_invariant(&*self.imgui);
        }
        self.imgui.frame_active = false;
        Ok(())
    }
}

/// `String::push` of the standard library: the string afterwards is the string
/// before with `c` appended.
pub assume_specification[ String::push ](s: &mut String, c: char)
    ensures
        final(s)@ == old(s)@.push(c),
;

} // verus!
