use geepu::compute::ComputeCommands;
use geepu::context::{Command, GpuContext, PresentMode, QueuedWrite};
use geepu::render::RenderCommands;
use geepu::{GeepuError, Renderer, Size};

#[test]
fn second_pass_before_close_is_a_usage_error() {
    let c = GpuContext::new();
    let mut session = ComputeCommands::new(&c, None);
    let pass = session.begin_compute_pass(Some("first")).unwrap();
    let r = session.begin_compute_pass(Some("second"));
    assert!(matches!(r, Err(GeepuError::InvalidOperation(_))));
    session.end_compute_pass(pass).unwrap();
    // After closing, a new pass may be opened again.
    let pass = session.begin_compute_pass(None).unwrap();
    session.end_compute_pass(pass).unwrap();
}

#[test]
fn submitting_twice_is_a_usage_error() {
    let mut c = GpuContext::new();
    let mut session = ComputeCommands::new(&c, None);
    session.submit(&mut c).unwrap();
    assert_eq!(c.queue.submitted.len(), 1);
    let r = session.submit(&mut c);
    assert!(matches!(r, Err(GeepuError::InvalidOperation(_))));
    assert_eq!(c.queue.submitted.len(), 1);
    // A submitted session cannot open passes either.
    let r = session.begin_compute_pass(None);
    assert!(matches!(r, Err(GeepuError::InvalidOperation(_))));
}

#[test]
fn submitting_with_an_open_pass_is_a_usage_error() {
    let mut c = GpuContext::new();
    let mut session = RenderCommands::new(&c, None);
    let pass = session.begin_render_pass(&[], None, None).unwrap();
    let r = session.submit(&mut c);
    assert!(matches!(r, Err(GeepuError::InvalidOperation(_))));
    session.end_render_pass(pass).unwrap();
    session.submit(&mut c).unwrap();
    assert_eq!(c.queue.submitted.len(), 1);
}

#[test]
fn copies_cannot_be_recorded_while_a_pass_is_open() {
    let c = GpuContext::new();
    let source = geepu::buffer::Buffer { size: 16 };
    let destination = geepu::buffer::Buffer { size: 16 };
    let mut session = RenderCommands::new(&c, None);
    let pass = session.begin_render_pass(&[], None, None).unwrap();
    let r = session.copy_buffer_to_buffer(&source, 0, &destination, 0, 16);
    assert!(matches!(r, Err(GeepuError::InvalidOperation(_))));
    session.end_render_pass(pass).unwrap();
    session
        .copy_buffer_to_buffer(&source, 0, &destination, 0, 16)
        .unwrap();
}

#[test]
fn compute_pass_records_pipeline_and_dispatch() {
    let mut c = GpuContext::new();
    let mut m = geepu::ShaderManager::new();
    m.load_compute_shader(&c, "k", "fn cs_main() {}").unwrap();
    let module = m.get_compute_shader("k").unwrap();
    let pipeline = geepu::shaders::ComputePipeline::new(&c, module, "cs_main", &[], (64, 1, 1), None);

    let mut session = ComputeCommands::new(&c, None);
    let mut pass = session.begin_compute_pass(Some("double")).unwrap();
    pass.set_pipeline(&pipeline);
    pass.dispatch_workgroups(16, 1, 1);
    session.end_compute_pass(pass).unwrap();
    session.submit(&mut c).unwrap();

    assert_eq!(c.queue.submitted.len(), 1);
    let commands = &c.queue.submitted[0].commands;
    assert_eq!(commands.len(), 4);
    assert!(matches!(commands[0], Command::BeginComputePass { .. }));
    match &commands[1] {
        Command::SetComputePipeline { entry_point } => assert_eq!(entry_point, "cs_main"),
        _ => panic!("expected a pipeline bind"),
    }
    assert!(matches!(
        commands[2],
        Command::DispatchWorkgroups { x: 16, y: 1, z: 1 }
    ));
    assert!(matches!(commands[3], Command::EndComputePass));
}

#[test]
fn offscreen_renderer_starts_clean() {
    let r = Renderer::offscreen(Size::new(512, 256)).unwrap();
    assert_eq!((r.size.width, r.size.height), (512, 256));
    let target = r.render_target.as_ref().unwrap();
    assert_eq!(target.texture.width, 512);
    assert_eq!(target.texture.height, 256);
    assert!(r.encoder.is_none());
    assert_eq!(r.gpu.queue.writes.len(), 0);
    assert_eq!(r.gpu.queue.submitted.len(), 0);
}

#[test]
fn renderer_guard_rejects_double_open() {
    let mut r = Renderer::offscreen(Size::new(64, 64)).unwrap();
    let mut guard = r.begin_pass();
    guard.render_pass(None).unwrap();
    let second = guard.render_pass(Some(geepu::context::Color::black()));
    assert!(matches!(second, Err(GeepuError::InvalidOperation(_))));
    guard.draw_indexed(0..6, 0, 0..1).unwrap();
    r.end_pass(guard).unwrap();
    r.submit();
    assert_eq!(r.gpu.queue.submitted.len(), 1);
    let commands = &r.gpu.queue.submitted[0].commands;
    assert!(matches!(commands[0], Command::BeginRenderPass { .. }));
    assert!(matches!(
        commands[1],
        Command::DrawIndexed { first_index: 0, end_index: 6, base_vertex: 0, .. }
    ));
    assert!(matches!(commands[2], Command::EndRenderPass));
}

#[test]
fn drawing_before_opening_the_pass_fails() {
    let mut r = Renderer::offscreen(Size::new(64, 64)).unwrap();
    let mut guard = r.begin_pass();
    let res = guard.draw_indexed(0..3, 0, 0..1);
    assert!(matches!(res, Err(GeepuError::InvalidOperation(_))));
}

#[test]
fn uniforms_are_type_checked_on_retrieval() {
    let mut r = Renderer::offscreen(Size::new(8, 8)).unwrap();
    r.add_uniform("mvp", &7u32);
    assert!(r.resources.get_uniform::<u32>("mvp").is_ok());
    assert!(matches!(
        r.resources.get_uniform::<u16>("mvp"),
        Err(GeepuError::TypeMismatch(_))
    ));
    // A wrong type of the same size must fail too: the bytes are never
    // silently reinterpreted.
    assert!(matches!(
        r.resources.get_uniform::<i32>("mvp"),
        Err(GeepuError::TypeMismatch(_))
    ));
    assert!(matches!(
        r.resources.get_uniform::<u32>("missing"),
        Err(GeepuError::ResourceNotFound(_))
    ));
    // Namespaces are independent: the name is not visible as a storage
    // buffer or texture.
    assert!(matches!(
        r.resources.get_storage_buffer::<u32>("mvp"),
        Err(GeepuError::ResourceNotFound(_))
    ));
    assert!(matches!(
        r.resources.get_texture("mvp"),
        Err(GeepuError::ResourceNotFound(_))
    ));
}

#[test]
fn updates_queue_the_cast_bytes() {
    let mut r = Renderer::offscreen(Size::new(8, 8)).unwrap();
    r.add_uniform("mvp", &7u32);
    r.update_uniform("mvp", &9u32).unwrap();
    assert_eq!(r.gpu.queue.writes.len(), 1);
    match &r.gpu.queue.writes[0] {
        QueuedWrite::Buffer { bytes, .. } => assert_eq!(bytes.len(), 4),
        _ => panic!("expected a buffer write"),
    }
    let err = r.update_uniform("missing", &9u32);
    assert!(matches!(err, Err(GeepuError::ResourceNotFound(_))));
    assert_eq!(r.gpu.queue.writes.len(), 1);

    r.add_storage_buffer("data", &[1u32, 2, 3]);
    r.update_storage_buffer("data", &[4u32, 5, 6]).unwrap();
    assert_eq!(r.gpu.queue.writes.len(), 2);
    match &r.gpu.queue.writes[1] {
        QueuedWrite::Buffer { bytes, .. } => assert_eq!(bytes.len(), 12),
        _ => panic!("expected a buffer write"),
    }
}

#[test]
fn storage_buffers_remember_access_mode() {
    let mut r = Renderer::offscreen(Size::new(8, 8)).unwrap();
    r.add_storage_buffer("ro", &[1u32]);
    r.add_storage_buffer_with_access("rw", &[1u32, 2], false);
    assert!(r.resources.get_storage_buffer::<u32>("ro").unwrap().read_only);
    // Same-size different-type retrieval fails.
    assert!(matches!(
        r.resources.get_storage_buffer::<i32>("ro"),
        Err(GeepuError::TypeMismatch(_))
    ));
    assert!(matches!(
        r.resources.get_storage_buffer::<f32>("ro"),
        Err(GeepuError::TypeMismatch(_))
    ));
    let rw = r.resources.get_storage_buffer::<u32>("rw").unwrap();
    assert!(!rw.read_only);
    assert_eq!(rw.len, 2);
    assert_eq!(rw.buffer.size, 8);
}

#[test]
fn textures_from_images_queue_their_pixels() {
    let mut r = Renderer::offscreen(Size::new(8, 8)).unwrap();
    let pixels = vec![255u8; 4 * 4 * 2];
    let img = image::DynamicImage::ImageRgba8(image::RgbaImage::from_raw(4, 2, pixels).unwrap());
    r.add_texture("checker", img).unwrap();
    let t = r.resources.get_texture("checker").unwrap();
    assert_eq!(t.texture.width, 4);
    assert_eq!(t.texture.height, 2);
    assert_eq!(r.gpu.queue.writes.len(), 1);
    match &r.gpu.queue.writes[0] {
        QueuedWrite::Texture { width, height, bytes_per_row, bytes, .. } => {
            assert_eq!((*width, *height), (4, 2));
            assert_eq!(*bytes_per_row, 16);
            assert_eq!(bytes.len(), 32);
        }
        _ => panic!("expected a texture write"),
    }
}

#[test]
fn dispatch_compute_needs_pipeline_and_encoder() {
    let mut r = Renderer::offscreen(Size::new(8, 8)).unwrap();
    let missing = r.dispatch_compute("k", 1, 1, 1);
    assert!(matches!(missing, Err(GeepuError::ResourceNotFound(_))));

    r.add_compute_shader("sh", "fn cs_main() {}").unwrap();
    r.create_compute_pipeline("k", "sh", "cs_main", &[], (64, 1, 1)).unwrap();
    let no_encoder = r.dispatch_compute("k", 2, 1, 1);
    assert!(matches!(no_encoder, Err(GeepuError::InvalidOperation(_))));

    let guard = r.begin_pass();
    r.dispatch_compute("k", 2, 1, 1).unwrap();
    r.end_pass(guard).unwrap();
    r.submit();
    let commands = &r.gpu.queue.submitted[0].commands;
    assert_eq!(commands.len(), 4);
    assert!(matches!(
        commands[2],
        Command::DispatchWorkgroups { x: 2, y: 1, z: 1 }
    ));
}

#[test]
fn create_compute_pipeline_needs_a_loaded_shader() {
    let mut r = Renderer::offscreen(Size::new(8, 8)).unwrap();
    let res = r.create_compute_pipeline("k", "missing", "cs_main", &[], (64, 1, 1));
    assert!(matches!(res, Err(GeepuError::ResourceNotFound(_))));
}

#[test]
fn readback_plan_covers_the_render_target() {
    let mut r = Renderer::offscreen(Size::new(4, 3)).unwrap();
    let plan = r.copy_to_buffer().unwrap();
    assert_eq!(plan.bytes_per_row, 16);
    assert_eq!(plan.rows_per_image, 3);
    assert_eq!(plan.buffer_size, 48);
    assert_eq!(r.gpu.queue.submitted.len(), 1);

    let mut windowed = Renderer::windowed(
        &geepu::WindowConfig::new("t", Size::new(4, 3)),
        geepu::texture::TextureFormat::Bgra8UnormSrgb,
        PresentMode::Fifo,
        geepu::context::CompositeAlphaMode::Auto,
    );
    let res = windowed.copy_to_buffer();
    assert!(matches!(res, Err(GeepuError::InvalidOperation(_))));
}

#[test]
fn resize_recreates_the_render_target() {
    let mut r = Renderer::offscreen(Size::new(8, 8)).unwrap();
    r.resize(Size::new(16, 12)).unwrap();
    assert_eq!((r.size.width, r.size.height), (16, 12));
    let t = r.render_target.as_ref().unwrap();
    assert_eq!((t.texture.width, t.texture.height), (16, 12));
    // Zero sizes are ignored.
    r.resize(Size::new(0, 5)).unwrap();
    assert_eq!((r.size.width, r.size.height), (16, 12));
}

#[test]
fn windowed_renderer_exposes_its_surface() {
    let r = Renderer::windowed(
        &geepu::WindowConfig::new("t", Size::new(800, 600)),
        geepu::texture::TextureFormat::Bgra8UnormSrgb,
        PresentMode::Fifo,
        geepu::context::CompositeAlphaMode::Auto,
    );
    let frame = r.get_surface_texture().unwrap();
    assert_eq!((frame.width, frame.height), (800, 600));
    r.present(frame);

    let offscreen = Renderer::offscreen(Size::new(8, 8)).unwrap();
    assert!(matches!(
        offscreen.get_surface_texture(),
        Err(GeepuError::InvalidOperation(_))
    ));
}

#[test]
fn present_mode_selection_honours_vsync() {
    let supported = vec![PresentMode::Fifo, PresentMode::Mailbox];
    assert_eq!(
        geepu::renderer::select_present_mode(true, &supported).unwrap(),
        PresentMode::Fifo
    );
    assert_eq!(
        geepu::renderer::select_present_mode(false, &supported).unwrap(),
        PresentMode::Immediate
    );
    assert!(matches!(
        geepu::renderer::select_present_mode(true, &Vec::new()),
        Err(GeepuError::SurfaceCreationFailed(_))
    ));
}

#[test]
fn simple_pipeline_assigns_bindings_in_blocks() {
    let mut c = GpuContext::new();
    c.configure_surface(geepu::context::SurfaceConfiguration {
        format: geepu::texture::TextureFormat::Bgra8UnormSrgb,
        width: 640,
        height: 480,
        present_mode: PresentMode::Fifo,
        alpha_mode: geepu::context::CompositeAlphaMode::Auto,
        desired_maximum_frame_latency: 2,
    });
    let tex = geepu::texture::Texture::create_empty(
        &c,
        4,
        4,
        geepu::texture::TextureFormat::Rgba8UnormSrgb,
        geepu::texture::TextureUsages::binding_and_copy_dst(),
        None,
    )
    .unwrap();
    let sp = c
        .create_simple_pipeline(
            "fn vs_main() {}",
            "fn fs_main() {}",
            &[],
            &1u32,
            &[&tex, &tex],
            Some("simple"),
        )
        .unwrap();
    // Uniform binding 0; texture bindings 1, 2; sampler bindings 3, 4.
    let layout = &sp.pipeline.bind_group_layouts[0];
    assert_eq!(layout.entries.len(), 5);
    for (i, entry) in layout.entries.iter().enumerate() {
        assert_eq!(entry.binding as usize, i);
    }
    assert_eq!(sp.bind_group.entries.len(), 5);
    for (i, entry) in sp.bind_group.entries.iter().enumerate() {
        assert_eq!(entry.binding as usize, i);
    }

    // Without a surface, the pipeline cannot pick a target format.
    let bare = GpuContext::new();
    let res = bare.create_simple_pipeline("v", "f", &[], &1u32, &[], None);
    assert!(matches!(res, Err(GeepuError::InvalidOperation(_))));
}

#[test]
fn simple_compute_assigns_uniform_then_storage_bindings() {
    let c = GpuContext::new();
    let b1 = geepu::buffer::Buffer { size: 16 };
    let b2 = geepu::buffer::Buffer { size: 32 };
    let cp = c
        .create_simple_compute("fn cs_main() {}", &1u32, &[&b1, &b2], None)
        .unwrap();
    assert_eq!(cp.entry_point, "cs_main");
    assert_eq!(cp.source, "fn cs_main() {}");
    let layout = &cp.bind_group_layouts[0];
    assert_eq!(layout.entries.len(), 3);
    assert!(matches!(
        layout.entries[0].ty,
        geepu::pipeline::BindingKind::UniformBuffer
    ));
    assert!(matches!(
        layout.entries[1].ty,
        geepu::pipeline::BindingKind::StorageBuffer { read_only: false }
    ));
    assert_eq!(layout.entries[2].binding, 2);
}

#[test]
fn non_rgba_images_are_converted_before_upload() {
    let mut r = Renderer::offscreen(Size::new(8, 8)).unwrap();
    // A 4x2 grayscale image holds 8 bytes; the upload must hold the
    // converted RGBA8 pixels, 4 bytes each.
    let gray = image::DynamicImage::ImageLuma8(
        image::GrayImage::from_raw(4, 2, vec![7u8; 8]).unwrap(),
    );
    r.add_texture("gray", gray).unwrap();
    match &r.gpu.queue.writes[0] {
        QueuedWrite::Texture { bytes, .. } => assert_eq!(bytes.len(), 32),
        _ => panic!("expected a texture write"),
    }
}
