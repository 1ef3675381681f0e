mod renderer;
mod texture;

pub use renderer::{
    lemma_set_camera_last_wins, pick_surface_format, CameraParams, CameraSlot, ClearColor,
    GeometrySlot, RenderPlan, Renderer, RendererBackends, RendererError, SurfaceConfig, TextureSlot,
    Vec3Milli, CLEAR_CHANNEL_MAX_MILLI, DEFAULT_CLEAR_ALPHA_MILLI,
};
pub use texture::{decode_rgba_spec, TextureImage};
