use geepu::buffer::{BufferUsages, VertexFormat};
use geepu::context::{CommandEncoder, Command, GpuContext, SurfaceConfiguration};
use geepu::context::{CompositeAlphaMode, PresentMode};
use geepu::pipeline::{
    BindGroupBuilder, BindGroupLayoutBuilder, SamplerBindingType, ShaderStages, TextureSampleType,
    TextureViewDimension,
};
use geepu::texture::{Texture, TextureFormat, TextureUsages};
use geepu::{GeepuError, ShaderManager, StagingBuffer, TypedBuffer, VertexBufferBuilder};

fn ctx() -> GpuContext {
    GpuContext::new()
}

#[test]
fn buffer_reports_capacity_and_byte_size() {
    let c = ctx();
    let b = TypedBuffer::<u32>::empty(&c, 5, BufferUsages::storage()).unwrap();
    assert_eq!(b.len(), 5);
    assert_eq!(b.size_bytes(), 20);
    assert!(!b.is_empty());

    let b = TypedBuffer::<u64>::empty(&c, 7, BufferUsages::uniform()).unwrap();
    assert_eq!(b.len(), 7);
    assert_eq!(b.size_bytes(), 56);

    let b = TypedBuffer::<u16>::empty(&c, 0, BufferUsages::vertex()).unwrap();
    assert!(b.is_empty());
    assert_eq!(b.size_bytes(), 0);
}

#[test]
fn buffer_with_data_is_sized_exactly_to_it() {
    let c = ctx();
    let b = TypedBuffer::<u32>::new(&c, &[1, 2, 3], BufferUsages::vertex()).unwrap();
    assert_eq!(b.len(), 3);
    assert_eq!(b.size_bytes(), 12);
    // The initial contents are the data's bytes: 4 bytes per element, not
    // one per element.
    assert_eq!(b.init.as_ref().unwrap().len(), 12);
}

#[test]
fn oversized_write_fails_and_writes_nothing() {
    let mut c = ctx();
    let b = TypedBuffer::<u32>::empty(&c, 2, BufferUsages::storage()).unwrap();
    let r = b.write(&mut c, &[1, 2, 3]);
    assert!(matches!(r, Err(GeepuError::CapacityExceeded)));
    assert_eq!(c.queue.writes.len(), 0);

    let r = b.write(&mut c, &[1, 2]);
    assert!(r.is_ok());
    assert_eq!(c.queue.writes.len(), 1);
    match &c.queue.writes[0] {
        geepu::context::QueuedWrite::Buffer { offset, bytes } => {
            assert_eq!(*offset, 0);
            assert_eq!(bytes.len(), 8);
        }
        _ => panic!("expected a buffer write"),
    }
}

#[test]
fn from_bytes_accepts_exactly_matching_lengths() {
    let formats: [(TextureFormat, usize); 7] = [
        (TextureFormat::R8Unorm, 1),
        (TextureFormat::Rg8Unorm, 2),
        (TextureFormat::Rgba8Unorm, 4),
        (TextureFormat::Rgba8UnormSrgb, 4),
        (TextureFormat::Bgra8Unorm, 4),
        (TextureFormat::Bgra8UnormSrgb, 4),
        (TextureFormat::Rgb9e5Ufloat, 4),
    ];
    for (format, bpp) in formats {
        let mut c = ctx();
        let bytes = vec![0u8; 4 * 2 * bpp];
        let t = Texture::from_bytes(&mut c, &bytes, 4, 2, format, None).unwrap();
        assert_eq!(t.size(), (4, 2));
        assert_eq!(t.format(), format);
        assert_eq!(c.queue.writes.len(), 1);

        let mut c = ctx();
        let bytes = vec![0u8; 4 * 2 * bpp + 1];
        let r = Texture::from_bytes(&mut c, &bytes, 4, 2, format, None);
        assert!(matches!(r, Err(GeepuError::SizeMismatch(_))));
        assert_eq!(c.queue.writes.len(), 0);

        let mut c = ctx();
        let bytes = vec![0u8; 4 * 2 * bpp - 1];
        let r = Texture::from_bytes(&mut c, &bytes, 4, 2, format, None);
        assert!(matches!(r, Err(GeepuError::SizeMismatch(_))));
    }
}

#[test]
fn from_bytes_rejects_formats_without_byte_width() {
    let mut c = ctx();
    let r = Texture::from_bytes(&mut c, &[0u8; 32], 4, 2, TextureFormat::Depth32Float, None);
    assert!(matches!(r, Err(GeepuError::UnsupportedFormat(_))));
    assert_eq!(c.queue.writes.len(), 0);
}

#[test]
fn write_data_rejects_unsupported_formats() {
    let c = ctx();
    let depth = Texture::create_depth_texture(&c, 8, 8, None).unwrap();
    let mut c = ctx();
    let r = depth.write_data(&mut c, &[0u8; 256], 8, 8);
    assert!(matches!(r, Err(GeepuError::UnsupportedFormat(_))));
    assert_eq!(c.queue.writes.len(), 0);

    let tex = Texture::create_empty(
        &c,
        8,
        8,
        TextureFormat::Rgba8Unorm,
        TextureUsages::binding_and_copy_dst(),
        None,
    )
    .unwrap();
    let mut c = ctx();
    tex.write_data(&mut c, &[0u8; 256], 8, 8).unwrap();
    assert_eq!(c.queue.writes.len(), 1);
    match &c.queue.writes[0] {
        geepu::context::QueuedWrite::Texture { width, height, bytes_per_row, rows_per_image, bytes } => {
            assert_eq!((*width, *height), (8, 8));
            assert_eq!(*bytes_per_row, 32);
            assert_eq!(*rows_per_image, 8);
            assert_eq!(bytes.len(), 256);
        }
        _ => panic!("expected a texture write"),
    }
}

#[test]
fn bind_group_must_cover_layout_exactly() {
    let c = ctx();
    let tex = Texture::create_empty(
        &c,
        4,
        4,
        TextureFormat::Rgba8UnormSrgb,
        TextureUsages::binding_and_copy_dst(),
        None,
    )
    .unwrap();
    let buffer = geepu::buffer::Buffer { size: 16 };
    let layout = BindGroupLayoutBuilder::new()
        .uniform_buffer(0, ShaderStages::vertex_fragment())
        .texture(
            1,
            ShaderStages::fragment(),
            TextureSampleType::Float { filterable: true },
            TextureViewDimension::D2,
            false,
        )
        .sampler(2, ShaderStages::fragment(), SamplerBindingType::Filtering)
        .build(&c, None);

    // Exact cover, in any order of supply: succeeds.
    let group = BindGroupBuilder::new(&layout)
        .sampler(2, &tex)
        .buffer(0, &buffer)
        .texture_view(1, &tex)
        .build(&c, None)
        .unwrap();
    assert_eq!(group.entries.len(), 3);

    // A missing entry: fails.
    let r = BindGroupBuilder::new(&layout)
        .buffer(0, &buffer)
        .texture_view(1, &tex)
        .build(&c, None);
    assert!(matches!(r, Err(GeepuError::IncompleteBindGroup(_))));

    // An entry of the wrong kind at a declared index: fails.
    let r = BindGroupBuilder::new(&layout)
        .buffer(0, &buffer)
        .buffer(1, &buffer)
        .sampler(2, &tex)
        .build(&c, None);
    assert!(matches!(r, Err(GeepuError::IncompleteBindGroup(_))));

    // A duplicate binding index: fails.
    let r = BindGroupBuilder::new(&layout)
        .buffer(0, &buffer)
        .texture_view(1, &tex)
        .texture_view(1, &tex)
        .build(&c, None);
    assert!(matches!(r, Err(GeepuError::IncompleteBindGroup(_))));

    // An undeclared binding index: fails.
    let r = BindGroupBuilder::new(&layout)
        .buffer(0, &buffer)
        .texture_view(1, &tex)
        .sampler(7, &tex)
        .build(&c, None);
    assert!(matches!(r, Err(GeepuError::IncompleteBindGroup(_))));
}

#[test]
fn dispatch_counts_use_ceiling_division() {
    let wg = geepu::compute::WorkgroupSize::new(8, 8, 1);
    assert_eq!(wg.workgroups_for_size(100, 50, 1), (13, 7, 1));
    assert_eq!(wg.workgroups_for_size(64, 64, 1), (8, 8, 1));
    assert_eq!(wg.workgroups_for_size(0, 1, 1), (0, 1, 1));
    let wg = geepu::compute::WorkgroupSize::linear(64);
    assert_eq!(wg.workgroups_for_size(1024, 1, 1), (16, 1, 1));
    assert_eq!(wg.workgroups_for_size(1025, 1, 1), (17, 1, 1));
}

#[test]
fn pipeline_dispatch_size_matches_its_workgroup_size() {
    let c = ctx();
    let mut m = ShaderManager::new();
    m.load_compute_shader(&c, "double", "fn cs_main() {}").unwrap();
    let module = m.get_compute_shader("double").unwrap();
    let p = geepu::shaders::ComputePipeline::new(&c, module, "cs_main", &[], (8, 8, 1), None);
    assert_eq!(p.optimal_dispatch_size((100, 50, 1)), (13, 7, 1));
}

#[test]
fn compute_pipeline_retains_its_layouts() {
    let c = ctx();
    let mut m = ShaderManager::new();
    m.load_compute_shader(&c, "k", "fn cs_main() {}").unwrap();
    let module = m.get_compute_shader("k").unwrap();
    let layout = BindGroupLayoutBuilder::new()
        .uniform_buffer(0, ShaderStages::compute())
        .storage_buffer(1, ShaderStages::compute(), false)
        .build(&c, None);
    let p = geepu::shaders::ComputePipeline::new(&c, module, "cs_main", &[&layout], (64, 1, 1), None);
    assert_eq!(p.bind_group_layouts.len(), 1);
    assert_eq!(p.bind_group_layouts[0].entries.len(), 2);
    assert_eq!(p.bind_group_layouts[0].entries[1].binding, 1);
}

#[test]
fn zero_buffer_range_means_whole_remaining_range() {
    let c = ctx();
    let buffer = geepu::buffer::Buffer { size: 64 };
    let layout = BindGroupLayoutBuilder::new()
        .uniform_buffer(0, ShaderStages::compute())
        .build(&c, None);
    let builder = BindGroupBuilder::new(&layout)
        .buffer_range(0, &buffer, 16, Some(0))
        .buffer_range(1, &buffer, 0, Some(8))
        .buffer_range(2, &buffer, 4, None);
    match builder.entries[0].resource {
        geepu::pipeline::BoundResource::Buffer { offset, size, .. } => {
            assert_eq!(offset, 16);
            assert_eq!(size, None);
        }
        _ => panic!("expected a buffer resource"),
    }
    match builder.entries[1].resource {
        geepu::pipeline::BoundResource::Buffer { size, .. } => assert_eq!(size, Some(8)),
        _ => panic!("expected a buffer resource"),
    }
    match builder.entries[2].resource {
        geepu::pipeline::BoundResource::Buffer { size, .. } => assert_eq!(size, None),
        _ => panic!("expected a buffer resource"),
    }
}

#[test]
fn shader_registry_is_stage_qualified() {
    let c = ctx();
    let mut m = ShaderManager::new();
    m.load_compute_shader(&c, "x", "fn cs_main() {}").unwrap();
    assert!(matches!(
        m.get_vertex_shader("x"),
        Err(GeepuError::ResourceNotFound(_))
    ));
    assert!(matches!(
        m.get_fragment_shader("x"),
        Err(GeepuError::ResourceNotFound(_))
    ));
    assert!(m.get_compute_shader("x").is_ok());
}

#[test]
fn shader_reload_replaces_previous_module() {
    let c = ctx();
    let mut m = ShaderManager::new();
    m.load_vertex_shader(&c, "x", "first").unwrap();
    m.load_vertex_shader(&c, "x", "second").unwrap();
    assert_eq!(m.get_vertex_shader("x").unwrap().source, "second");
}

#[test]
fn vertex_attributes_are_assigned_consecutive_offsets() {
    let layout = VertexBufferBuilder::new()
        .attribute(VertexFormat::Float32x3, 0)
        .attribute(VertexFormat::Float32x2, 1)
        .build();
    assert_eq!(layout.array_stride, 20);
    assert_eq!(layout.attributes.len(), 2);
    assert_eq!(layout.attributes[0].offset, 0);
    assert_eq!(layout.attributes[1].offset, 12);
    // Non-overlap: each attribute ends at or before the next begins.
    assert!(layout.attributes[0].offset + layout.attributes[0].format.size()
        <= layout.attributes[1].offset);
}

#[test]
fn staging_copy_records_requested_size() {
    let c = ctx();
    let staging = StagingBuffer::new(&c, 64).unwrap();
    let source = geepu::buffer::Buffer { size: 256 };
    let mut enc = CommandEncoder::new();
    staging.copy_from_buffer(&mut enc, &source, None);
    staging.copy_from_buffer(&mut enc, &source, Some(16));
    assert_eq!(enc.commands.len(), 2);
    assert!(matches!(
        enc.commands[0],
        Command::CopyBufferToBuffer { size: 64, .. }
    ));
    assert!(matches!(
        enc.commands[1],
        Command::CopyBufferToBuffer { size: 16, .. }
    ));
}

#[test]
fn surface_format_selection_prefers_srgb() {
    let formats = vec![TextureFormat::Rgba8Unorm, TextureFormat::Bgra8UnormSrgb];
    assert_eq!(
        geepu::context::select_surface_format(&formats).unwrap(),
        TextureFormat::Bgra8UnormSrgb
    );
    let formats = vec![TextureFormat::Rgba8Unorm, TextureFormat::Bgra8Unorm];
    assert_eq!(
        geepu::context::select_surface_format(&formats).unwrap(),
        TextureFormat::Rgba8Unorm
    );
    let r = geepu::context::select_surface_format(&Vec::new());
    assert!(matches!(r, Err(GeepuError::SurfaceCreationFailed(_))));
}

#[test]
fn surface_context_reports_size_and_format() {
    let mut c = GpuContext::new();
    assert_eq!(c.size(), (0, 0));
    assert!(c.surface_format().is_none());
    assert!(matches!(
        c.get_current_texture(),
        Err(GeepuError::InvalidOperation(_))
    ));
    c.configure_surface(SurfaceConfiguration {
        format: TextureFormat::Bgra8UnormSrgb,
        width: 800,
        height: 600,
        present_mode: PresentMode::Fifo,
        alpha_mode: CompositeAlphaMode::Auto,
        desired_maximum_frame_latency: 2,
    });
    assert_eq!(c.size(), (800, 600));
    assert_eq!(c.surface_format(), Some(TextureFormat::Bgra8UnormSrgb));
    let frame = c.get_current_texture().unwrap();
    assert_eq!((frame.width, frame.height), (800, 600));
    c.resize(geepu::Size::new(0, 0)).unwrap();
    assert_eq!(c.size(), (1, 1));
}

#[test]
fn shader_builder_assembles_exact_source() {
    let b = geepu::compute::ComputeShaderBuilder::new()
        .workgroup_size(geepu::compute::WorkgroupSize::new(8, 8, 1))
        .snippet("// helper")
        .local_memory(256);
    let shader = b.build_shader("    let i = global_id.x;");
    let expected = String::new()
        + "// helper\n"
        + "@workgroup_size(8, 8, 1)\n"
        + "var<workgroup> local_memory: array<u32, 256>;\n\n"
        + "@compute\nfn cs_main(@builtin(global_invocation_id) global_id: vec3<u32>) {\n"
        + "    let i = global_id.x;"
        + "\n}";
    assert_eq!(shader, expected);
}

#[test]
fn error_kinds_have_stable_names() {
    assert_eq!(GeepuError::CapacityExceeded.kind_name(), "capacity exceeded");
    assert_eq!(
        GeepuError::SizeMismatch(String::new()).kind_name(),
        "size mismatch"
    );
    assert_eq!(
        GeepuError::ResourceNotFound(String::new()).kind_name(),
        "resource not found"
    );
}

#[test]
fn texture_builder_applies_settings() {
    let c = ctx();
    let t = geepu::texture::TextureBuilder::new(16, 8)
        .format(TextureFormat::Rg8Unorm)
        .usage(TextureUsages::render_target())
        .mip_levels(3)
        .sample_count(4)
        .build(&c)
        .unwrap();
    assert_eq!(t.size(), (16, 8));
    assert_eq!(t.format(), TextureFormat::Rg8Unorm);
    assert_eq!(t.mip_level_count, 3);
    assert_eq!(t.sample_count, 4);
    assert!(t.usage.render_attachment);
}

#[test]
fn default_configs_match_documented_values() {
    let w = geepu::WindowConfig::default();
    assert_eq!(w.title, "Geepu Application");
    assert_eq!((w.size.width, w.size.height), (1280, 720));
    assert!(w.resizable && w.vsync);

    let g = geepu::GpuConfig::performance();
    assert!(matches!(
        g.power_preference,
        geepu::config::PowerPreference::HighPerformance
    ));
    let g = geepu::GpuConfig::low_power();
    assert!(matches!(
        g.power_preference,
        geepu::config::PowerPreference::LowPower
    ));
}

#[test]
fn registry_insert_replaces_under_the_same_name() {
    let mut store: geepu::registry::NamedStore<u32> = geepu::registry::NamedStore::new();
    assert!(!store.contains("a"));
    store.insert("a", 1);
    store.insert("b", 2);
    store.insert("a", 3);
    assert_eq!(store.len(), 2);
    assert!(store.contains("a"));
    assert_eq!(store.get("a"), Some(&3));
    assert_eq!(store.get("b"), Some(&2));
    assert_eq!(store.get("c"), None);
}

#[test]
fn shader_layout_builder_packs_attributes() {
    let layout = geepu::shaders::VertexBufferLayoutBuilder::new()
        .add_attribute(VertexFormat::Float32x4, 0)
        .add_attribute(VertexFormat::Uint32, 1)
        .build();
    assert_eq!(layout.array_stride, 20);
    assert_eq!(layout.attributes[0].offset, 0);
    assert_eq!(layout.attributes[1].offset, 16);
    assert_eq!(layout.attributes[1].shader_location, 1);
}

#[test]
fn convenience_constructors_set_their_usages() {
    let c = ctx();
    let v = TypedBuffer::<u32>::vertex(&c, &[1]).unwrap();
    assert!(v.usage.vertex && !v.usage.copy_dst);
    let i = TypedBuffer::<u16>::index(&c, &[1]).unwrap();
    assert!(i.usage.index);
    let u = TypedBuffer::<u32>::uniform(&c, &[1]).unwrap();
    assert!(u.usage.uniform && u.usage.copy_dst);
    let s = TypedBuffer::<u32>::storage(&c, &[1]).unwrap();
    assert!(s.usage.storage && s.usage.copy_dst);
    let staging = StagingBuffer::new(&c, 64).unwrap();
    assert!(staging.usage.map_read && staging.usage.copy_dst && !staging.usage.storage);
}

#[test]
fn reduction_shader_rewrites_the_operation() {
    let shader = geepu::patterns::reduction_shader("result += data[i];", "0.0", "f32");
    assert!(shader.contains("var<storage, read> input_data: array<f32>;"));
    assert!(shader.contains("var<workgroup> shared_data: array<f32, 256>;"));
    assert!(shader.contains("shared_data[tid] = 0.0;"));
    // The accumulator and element names are rewritten onto shared memory.
    assert!(shader.contains("shared_data[tid] += shared_data[idx];"));
    assert!(!shader.contains("result +="));
}

#[test]
fn prefix_sum_shader_is_typed() {
    let shader = geepu::patterns::prefix_sum_shader("u32");
    assert!(shader.contains("var<storage, read_write> output_data: array<u32>;"));
    assert!(shader.contains("// Up-sweep phase"));
    assert!(shader.contains("// Down-sweep phase"));
}
