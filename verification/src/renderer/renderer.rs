//! Renderer resource state machine.
//!
//! The renderer tracks the surface configuration and three optional content
//! slots — geometry, texture, camera — each of which is either wholly unset or
//! wholly ready, never partially built. Setters replace a slot atomically;
//! [`Renderer::render`] describes one frame as a [`RenderPlan`]: a clear pass,
//! one binding per slot that is ready, and one indexed draw covering the full
//! current index range when geometry is ready. A graphics backend outside the
//! verified core executes plans and mirrors the slots in device objects.

use vstd::prelude::*;
use super::texture::{decode_rgba, decode_rgba_spec, TextureImage};

verus! {

/// Graphics backends a renderer can be asked for.
#[derive(Debug, Clone, Copy, PartialEq, Eq, Structural)]
pub enum RendererBackends {
    OpenGL,
    Metal,
    Vulkan,
    Dx12,
    BrowserWebGL,
}

/// Failures of the resource setters. These are returned to the caller, never
/// swallowed; a failed setter leaves every slot as it was.
#[derive(Debug, Clone, Copy, PartialEq, Eq, Structural)]
pub enum RendererError {
    /// The bytes handed to `load_texture` are not a well-formed encoded image.
    TextureDecode,
    /// The vertex or index data handed to `set_geometry` is empty.
    EmptyGeometry,
}

impl RendererError {
    /// The fixed description of each variant.
    pub open spec fn describe_spec(&self) -> Seq<char> {
        match self {
            RendererError::TextureDecode => "texture bytes are not a supported image"@,
            RendererError::EmptyGeometry => "geometry must have vertices and indices"@,
        }
    }

    /// A short description of the failure.
    pub fn describe(&self) -> (s: &'static str)
        ensures
            s@ == self.describe_spec(),
    {
        match self {
            RendererError::TextureDecode => "texture bytes are not a supported image",
            RendererError::EmptyGeometry => "geometry must have vertices and indices",
        }
    }
}

/// The presentable surface's configuration: its size in pixels and whether the
/// chosen presentation format is sRGB.
#[derive(Debug, Clone, Copy, PartialEq, Eq, Structural)]
pub struct SurfaceConfig {
    pub width: u32,
    pub height: u32,
    pub format_srgb: bool,
}

/// A point or direction in thousandths of a world unit.
#[derive(Debug, Clone, Copy, PartialEq, Eq, Structural)]
pub struct Vec3Milli {
    pub x: i64,
    pub y: i64,
    pub z: i64,
}

/// View and projection parameters, in thousandths: world positions in
/// thousandths of a unit, the field of view in thousandths of a degree.
/// The backend derives the view-projection matrix from these parameters alone.
#[derive(Debug, Clone, Copy, PartialEq, Eq, Structural)]
pub struct CameraParams {
    pub eye: Vec3Milli,
    pub target: Vec3Milli,
    pub up: Vec3Milli,
    pub aspect_milli: i64,
    pub fovy_millideg: i64,
    pub near_milli: i64,
    pub far_milli: i64,
}

impl CameraParams {
    /// What the renderer accepts: a positive vertical field of view and a near
    /// plane strictly before the far plane.
    pub open spec fn wf(&self) -> bool {
        &&& self.fovy_millideg > 0
        &&& self.near_milli < self.far_milli
    }
}

/// Vertex and index data of the current drawable: either absent as a whole or
/// present as a whole. `vertex_bytes` is the raw vertex buffer contents; the
/// index count of a draw is always the length of `indices`.
#[derive(Debug)]
pub enum GeometrySlot {
    Unset,
    Ready { vertex_bytes: Vec<u8>, indices: Vec<u16> },
}

/// The sampled image resource: absent, or a named decoded image. The backend's
/// texture, view, sampler and bind group are derived from this slot together,
/// so replacing the image replaces them all.
#[derive(Debug)]
pub enum TextureSlot {
    Unset,
    Ready { name: String, image: TextureImage },
}

/// The camera: absent, or the parameters of the most recent `set_camera` call.
/// The uniform contents are a function of these parameters only.
#[derive(Debug, Clone, Copy, PartialEq, Eq, Structural)]
pub enum CameraSlot {
    Unset,
    Ready { params: CameraParams },
}

/// Default alpha of a clear color, in thousandths.
pub const DEFAULT_CLEAR_ALPHA_MILLI: u32 = 500;

/// Largest channel value of a clear color: one, in thousandths.
pub const CLEAR_CHANNEL_MAX_MILLI: u32 = 1000;

/// A clear color, each channel in thousandths of full intensity (0 to 1000).
#[derive(Debug, Clone, Copy, PartialEq, Eq, Structural)]
pub struct ClearColor {
    pub r_milli: u32,
    pub g_milli: u32,
    pub b_milli: u32,
    pub a_milli: u32,
}

impl ClearColor {
    /// Every channel within one full intensity.
    pub open spec fn wf(&self) -> bool {
        &&& self.r_milli <= CLEAR_CHANNEL_MAX_MILLI
        &&& self.g_milli <= CLEAR_CHANNEL_MAX_MILLI
        &&& self.b_milli <= CLEAR_CHANNEL_MAX_MILLI
        &&& self.a_milli <= CLEAR_CHANNEL_MAX_MILLI
    }

    /// A clear color from explicit channels.
    pub fn new(r_milli: u32, g_milli: u32, b_milli: u32, a_milli: u32) -> (color: ClearColor)
        requires
            r_milli <= CLEAR_CHANNEL_MAX_MILLI,
            g_milli <= CLEAR_CHANNEL_MAX_MILLI,
            b_milli <= CLEAR_CHANNEL_MAX_MILLI,
            a_milli <= CLEAR_CHANNEL_MAX_MILLI,
        ensures
            color == (ClearColor { r_milli, g_milli, b_milli, a_milli }),
            color.wf(),
    {
        ClearColor { r_milli, g_milli, b_milli, a_milli }
    }

    /// A clear color from the three color channels, with the default alpha.
    pub fn rgb(r_milli: u32, g_milli: u32, b_milli: u32) -> (color: ClearColor)
        requires
            r_milli <= CLEAR_CHANNEL_MAX_MILLI,
            g_milli <= CLEAR_CHANNEL_MAX_MILLI,
            b_milli <= CLEAR_CHANNEL_MAX_MILLI,
        ensures
            color == (ClearColor { r_milli, g_milli, b_milli, a_milli: DEFAULT_CLEAR_ALPHA_MILLI }),
            color.wf(),
    {
        ClearColor { r_milli, g_milli, b_milli, a_milli: DEFAULT_CLEAR_ALPHA_MILLI }
    }
}

/// One frame, described: clear the surface to `clear`, bind the texture and
/// camera groups at their fixed slots when asked, and, when `indexed_draw`
/// carries a count, issue exactly one indexed draw over that many indices.
#[derive(Debug, Clone, Copy, PartialEq, Eq, Structural)]
pub struct RenderPlan {
    pub clear: ClearColor,
    pub bind_texture: bool,
    pub bind_camera: bool,
    pub indexed_draw: Option<usize>,
}

/// The renderer's resource state: the surface configuration and the three
/// content slots. All slots start unset.
pub struct Renderer {
    pub config: SurfaceConfig,
    pub geometry: GeometrySlot,
    pub texture: TextureSlot,
    pub camera: CameraSlot,
}

impl Renderer {
    /// The surface always has a positive size: construction requires one and
    /// `resize` refuses zero dimensions.
    pub open spec fn wf(&self) -> bool {
        self.config.width > 0 && self.config.height > 0
    }

    /// The renderer with the camera slot replaced by `params`, all else kept.
    pub open spec fn with_camera(self, params: CameraParams) -> Renderer {
        Renderer { camera: CameraSlot::Ready { params }, ..self }
    }

    /// A renderer over a freshly configured surface, every content slot unset.
    pub fn new(width: u32, height: u32, format_srgb: bool) -> (renderer: Renderer)
        requires
            width > 0,
            height > 0,
        ensures
            renderer.wf(),
            renderer.config == (SurfaceConfig { width, height, format_srgb }),
            renderer.geometry is Unset,
            renderer.texture is Unset,
            renderer.camera is Unset,
    {
        Renderer {
            config: SurfaceConfig { width, height, format_srgb },
            geometry: GeometrySlot::Unset,
            texture: TextureSlot::Unset,
            camera: CameraSlot::Unset,
        }
    }

    /// Reconfigures the surface when both dimensions are strictly positive;
    /// a zero dimension (a minimized window) leaves everything unchanged.
    pub fn resize(&mut self, width: u32, height: u32)
        ensures
            width > 0 && height > 0 ==> *final(self) == (Renderer {
                config: (SurfaceConfig { width, height, format_srgb: old(self).config.format_srgb }),
                ..*old(self)
            }),
            !(width > 0 && height > 0) ==> *final(self) == *old(self),
            old(self).wf() ==> final(self).wf(),
    {
        if width > 0 && height > 0 {
            self.config = SurfaceConfig { width, height, format_srgb: self.config.format_srgb };
        }
    }

    /// Replaces the geometry slot as a whole with the given vertex bytes and
    /// indices; rejects empty input and then changes nothing. A later draw
    /// covers exactly `indices.len()` indices, never a stale count.
    pub fn set_geometry(&mut self, vertex_bytes: Vec<u8>, indices: Vec<u16>) -> (result: Result<
        (),
        RendererError,
    >)
        ensures
            result is Ok <==> vertex_bytes@.len() > 0 && indices@.len() > 0,
            result is Ok ==> *final(self) == (Renderer {
                geometry: GeometrySlot::Ready { vertex_bytes, indices },
                ..*old(self)
            }),
            result is Err ==> *final(self) == *old(self) && result == Err::<(), RendererError>(
                RendererError::EmptyGeometry,
            ),
    {
        if vertex_bytes.len() == 0 || indices.len() == 0 {
            return Err(RendererError::EmptyGeometry);
        }
        self.geometry = GeometrySlot::Ready { vertex_bytes, indices };
        Ok(())
    }

    /// Decodes `bytes` and replaces the texture slot as a whole with the named
    /// decoded image. When the bytes are not a well-formed encoded image the
    /// error is returned and the renderer — the previous texture in
    /// particular — is left exactly as it was.
    pub fn load_texture(&mut self, bytes: &Vec<u8>, name: &str) -> (result: Result<
        (),
        RendererError,
    >)
        ensures
            result is Ok <==> decode_rgba_spec(bytes@) is Some,
            result is Err ==> *final(self) == *old(self) && result == Err::<(), RendererError>(
                RendererError::TextureDecode,
            ),
            result is Ok ==> ({
                &&& final(self).texture matches TextureSlot::Ready { name: stored, image }
                    && stored@ == name@
                    && decode_rgba_spec(bytes@) == Some((image.width, image.height, image.rgba@))
                    && image.rgba@.len() == 4 * image.width * image.height
                &&& final(self).geometry == old(self).geometry
                &&& final(self).camera == old(self).camera
                &&& final(self).config == old(self).config
            }),
    {
        match decode_rgba(bytes) {
            Some(image) => {
                self.texture = TextureSlot::Ready { name: name.to_owned(), image };
                Ok(())
            },
            None => Err(RendererError::TextureDecode),
        }
    }

    /// Replaces the camera slot as a whole with exactly these parameters. The
    /// resulting view-projection state is a function of this call's parameters
    /// only; nothing of a previous camera survives.
    pub fn set_camera(
        &mut self,
        eye: Vec3Milli,
        target: Vec3Milli,
        up: Vec3Milli,
        aspect_milli: i64,
        fovy_millideg: i64,
        near_milli: i64,
        far_milli: i64,
    )
        requires
            fovy_millideg > 0,
            near_milli < far_milli,
        ensures
            *final(self) == old(self).with_camera(
                CameraParams { eye, target, up, aspect_milli, fovy_millideg, near_milli, far_milli },
            ),
    {
        self.camera = CameraSlot::Ready {
            params: CameraParams {
                eye,
                target,
                up,
                aspect_milli,
                fovy_millideg,
                near_milli,
                far_milli,
            },
        };
    }

    /// Describes one frame over whatever is currently bound: a clear to the
    /// given color, one binding per slot that is ready — an unset slot is
    /// skipped, not an error — and one indexed draw over the full current
    /// index range exactly when geometry is ready.
    pub fn render(&self, clear: ClearColor) -> (plan: RenderPlan)
        requires
            clear.wf(),
        ensures
            plan.clear == clear,
            plan.bind_texture == (self.texture is Ready),
            plan.bind_camera == (self.camera is Ready),
            plan.indexed_draw == (match self.geometry {
                GeometrySlot::Ready { indices, .. } => Some(indices@.len() as usize),
                GeometrySlot::Unset => None::<usize>,
            }),
    {
        let indexed_draw: Option<usize> = match &self.geometry {
            GeometrySlot::Ready { indices, .. } => Some(indices.len()),
            GeometrySlot::Unset => None,
        };
        RenderPlan {
            clear,
            bind_texture: !matches!(&self.texture, TextureSlot::Unset),
            bind_camera: !matches!(&self.camera, CameraSlot::Unset),
            indexed_draw,
        }
    }

    /// One frame cleared to the given color channels with the default alpha.
    pub fn clear(&self, r_milli: u32, g_milli: u32, b_milli: u32) -> (plan: RenderPlan)
        requires
            r_milli <= CLEAR_CHANNEL_MAX_MILLI,
            g_milli <= CLEAR_CHANNEL_MAX_MILLI,
            b_milli <= CLEAR_CHANNEL_MAX_MILLI,
        ensures
            plan.clear == (ClearColor {
                r_milli,
                g_milli,
                b_milli,
                a_milli: DEFAULT_CLEAR_ALPHA_MILLI,
            }),
            plan.bind_texture == (self.texture is Ready),
            plan.bind_camera == (self.camera is Ready),
            plan.indexed_draw == (match self.geometry {
                GeometrySlot::Ready { indices, .. } => Some(indices@.len() as usize),
                GeometrySlot::Unset => None::<usize>,
            }),
    {
        self.render(ClearColor::rgb(r_milli, g_milli, b_milli))
    }
}

/// Setting the camera twice leaves exactly the state of the second call: the
/// slot is replaced wholesale each time, so the camera after a call depends on
/// that call's parameters only, with no accumulation from earlier calls.
pub proof fn lemma_set_camera_last_wins(renderer: Renderer, first: CameraParams, second: CameraParams)
    ensures
        renderer.with_camera(first).with_camera(second) == renderer.with_camera(second),
{
}

/// Picks the presentation format: the first sRGB-capable entry of the
/// surface's capability list, or the first entry when none is sRGB-capable.
pub fn pick_surface_format(srgb_flags: &Vec<bool>) -> (chosen: usize)
    requires
        srgb_flags@.len() > 0,
    ensures
        chosen < srgb_flags@.len(),
        (exists|j: int| 0 <= j < srgb_flags@.len() && srgb_flags@[j]) ==> srgb_flags@[chosen as int]
            && (forall|j: int| 0 <= j < chosen ==> !srgb_flags@[j]),
        !(exists|j: int| 0 <= j < srgb_flags@.len() && srgb_flags@[j]) ==> chosen == 0,
{
    let mut i: usize = 0;
    while i < srgb_flags.len()
        invariant
            i <= srgb_flags@.len(),
            forall|j: int| 0 <= j < i ==> !srgb_flags@[j],
        decreases srgb_flags@.len() - i,
    {
        if srgb_flags[i] {
            return i;
        }
        i = i + 1;
    }
    0
}

} // verus!
