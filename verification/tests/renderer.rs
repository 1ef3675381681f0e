use bine::renderer::{
    pick_surface_format, CameraSlot, ClearColor, GeometrySlot, Renderer, RendererError,
    TextureSlot, Vec3Milli, DEFAULT_CLEAR_ALPHA_MILLI,
};

fn sample_png(width: u32, height: u32) -> Vec<u8> {
    let image = image::DynamicImage::ImageRgba8(image::RgbaImage::new(width, height));
    let mut bytes: Vec<u8> = Vec::new();
    image
        .write_to(&mut std::io::Cursor::new(&mut bytes), image::ImageFormat::Png)
        .expect("encoding a fresh image cannot fail");
    bytes
}

#[test]
fn fresh_renderer_renders_a_clear_only_pass() {
    let renderer = Renderer::new(800, 600, true);
    assert!(matches!(renderer.geometry, GeometrySlot::Unset));
    assert!(matches!(renderer.texture, TextureSlot::Unset));
    assert!(matches!(renderer.camera, CameraSlot::Unset));

    let plan = renderer.render(ClearColor::rgb(100, 200, 300));
    assert_eq!(plan.indexed_draw, None); // no geometry: no indexed draw at all
    assert!(!plan.bind_texture);
    assert!(!plan.bind_camera);
    assert_eq!(plan.clear.r_milli, 100);
    assert_eq!(plan.clear.a_milli, DEFAULT_CLEAR_ALPHA_MILLI);
}

#[test]
fn resize_with_a_zero_dimension_changes_nothing() {
    let mut renderer = Renderer::new(800, 600, false);
    renderer.resize(0, 1_000);
    assert_eq!(renderer.config.width, 800);
    assert_eq!(renderer.config.height, 600);
    renderer.resize(1_000, 0);
    assert_eq!(renderer.config.width, 800);
    assert_eq!(renderer.config.height, 600);
    renderer.resize(0, 0);
    assert_eq!(renderer.config.width, 800);
    assert_eq!(renderer.config.height, 600);
}

#[test]
fn resize_with_positive_dimensions_reconfigures() {
    let mut renderer = Renderer::new(800, 600, true);
    renderer.resize(1_024, 768);
    assert_eq!(renderer.config.width, 1_024);
    assert_eq!(renderer.config.height, 768);
    assert!(renderer.config.format_srgb);
}

#[test]
fn empty_geometry_is_rejected_and_leaves_the_slot() {
    let mut renderer = Renderer::new(64, 64, true);
    assert_eq!(renderer.set_geometry(Vec::new(), vec![0u16]), Err(RendererError::EmptyGeometry));
    assert_eq!(renderer.set_geometry(vec![1u8], Vec::new()), Err(RendererError::EmptyGeometry));
    assert!(matches!(renderer.geometry, GeometrySlot::Unset));

    assert_eq!(renderer.set_geometry(vec![1u8, 2, 3], vec![0u16, 1, 2]), Ok(()));
    assert_eq!(renderer.set_geometry(Vec::new(), vec![0u16]), Err(RendererError::EmptyGeometry));
    match &renderer.geometry {
        GeometrySlot::Ready { indices, .. } => assert_eq!(indices.len(), 3),
        GeometrySlot::Unset => panic!("a failed setter must not clear the slot"),
    }
}

#[test]
fn the_draw_count_always_follows_the_latest_geometry() {
    let mut renderer = Renderer::new(64, 64, true);
    renderer.set_geometry(vec![1u8, 2, 3, 4], vec![0u16, 1, 2]).unwrap();
    let plan = renderer.render(ClearColor::rgb(0, 0, 0));
    assert_eq!(plan.indexed_draw, Some(3));

    renderer.set_geometry(vec![5u8, 6], vec![0u16, 1, 2, 2, 3, 0]).unwrap();
    let plan = renderer.render(ClearColor::rgb(0, 0, 0));
    assert_eq!(plan.indexed_draw, Some(6)); // never a stale count
}

#[test]
fn set_camera_replaces_the_whole_slot_each_call() {
    let mut renderer = Renderer::new(64, 64, true);
    let eye = Vec3Milli { x: 0, y: 1_000, z: 2_000 };
    let origin = Vec3Milli { x: 0, y: 0, z: 0 };
    let up = Vec3Milli { x: 0, y: 1_000, z: 0 };
    renderer.set_camera(eye, origin, up, 1_333, 45_000, 100, 100_000);
    renderer.set_camera(origin, eye, up, 1_000, 60_000, 200, 50_000);
    match renderer.camera {
        CameraSlot::Ready { params } => {
            // Only the second call's parameters survive, none of the first's.
            assert_eq!(params.eye, origin);
            assert_eq!(params.target, eye);
            assert_eq!(params.aspect_milli, 1_000);
            assert_eq!(params.fovy_millideg, 60_000);
            assert_eq!(params.near_milli, 200);
            assert_eq!(params.far_milli, 50_000);
        }
        CameraSlot::Unset => panic!("set_camera must fill the slot"),
    }
    let plan = renderer.render(ClearColor::rgb(0, 0, 0));
    assert!(plan.bind_camera);
}

#[test]
fn load_texture_decodes_a_real_image() {
    let mut renderer = Renderer::new(64, 64, true);
    let bytes = sample_png(2, 3);
    renderer.load_texture(&bytes, "checker").unwrap();
    match &renderer.texture {
        TextureSlot::Ready { name, image } => {
            assert_eq!(name, "checker");
            assert_eq!(image.width, 2);
            assert_eq!(image.height, 3);
            assert_eq!(image.rgba.len(), 4 * 2 * 3);
        }
        TextureSlot::Unset => panic!("a successful load must fill the slot"),
    }
    let plan = renderer.render(ClearColor::rgb(0, 0, 0));
    assert!(plan.bind_texture);
}

#[test]
fn malformed_texture_bytes_fail_and_keep_the_previous_texture() {
    let mut renderer = Renderer::new(64, 64, true);
    let good = sample_png(4, 4);
    renderer.load_texture(&good, "good").unwrap();

    let garbage = vec![0x13u8, 0x37, 0x00, 0xff, 0x42];
    assert_eq!(renderer.load_texture(&garbage, "bad"), Err(RendererError::TextureDecode));
    match &renderer.texture {
        TextureSlot::Ready { name, image } => {
            assert_eq!(name, "good");
            assert_eq!(image.width, 4);
            assert_eq!(image.height, 4);
        }
        TextureSlot::Unset => panic!("a failed load must keep the previous texture"),
    }
}

#[test]
fn malformed_texture_bytes_fail_on_an_empty_slot_too() {
    let mut renderer = Renderer::new(64, 64, true);
    let result = renderer.load_texture(&vec![1u8, 2, 3], "nope");
    assert_eq!(result, Err(RendererError::TextureDecode));
    assert!(matches!(renderer.texture, TextureSlot::Unset));
    assert_eq!(result.unwrap_err().describe(), "texture bytes are not a supported image");
}

#[test]
fn clear_uses_the_default_alpha() {
    let renderer = Renderer::new(64, 64, true);
    let plan = renderer.clear(120, 250, 88);
    assert_eq!(plan.clear.r_milli, 120);
    assert_eq!(plan.clear.g_milli, 250);
    assert_eq!(plan.clear.b_milli, 88);
    assert_eq!(plan.clear.a_milli, DEFAULT_CLEAR_ALPHA_MILLI);
}

#[test]
fn surface_format_prefers_the_first_srgb_entry() {
    assert_eq!(pick_surface_format(&vec![false, true, true]), 1);
    assert_eq!(pick_surface_format(&vec![true, false]), 0);
    assert_eq!(pick_surface_format(&vec![false, false, false]), 0); // fallback: first
}

#[test]
fn geometry_errors_have_a_description() {
    assert_eq!(
        RendererError::EmptyGeometry.describe(),
        "geometry must have vertices and indices"
    );
}
