//! Default WGSL shader sources for common operations.

use vstd::prelude::*;

verus! {

/// Basic vertex shader for textured quads.
pub fn textured_quad_vertex() -> &'static str {
    "struct VertexInput {\n    @location(0) position: vec3<f32>,\n    @location(1) tex_coords: vec2<f32>,\n}\n\nstruct VertexOutput {\n    @builtin(position) clip_position: vec4<f32>,\n    @location(0) tex_coords: vec2<f32>,\n}\n\nstruct Uniforms {\n    mvp_matrix: mat4x4<f32>,\n}\n\n@group(0) @binding(0)\nvar<uniform> uniforms: Uniforms;\n\n@vertex\nfn vs_main(model: VertexInput) -> VertexOutput {\n    var out: VertexOutput;\n    out.tex_coords = model.tex_coords;\n    out.clip_position = uniforms.mvp_matrix * vec4<f32>(model.position, 1.0);\n    return out;\n}\n"
}

/// Basic fragment shader for textured quads.
pub fn textured_quad_fragment() -> &'static str {
    "@group(1) @binding(0)\nvar t_diffuse: texture_2d<f32>;\n@group(1) @binding(1)\nvar s_diffuse: sampler;\n\n@fragment\nfn fs_main(@location(0) tex_coords: vec2<f32>) -> @location(0) vec4<f32> {\n    return textureSample(t_diffuse, s_diffuse, tex_coords);\n}\n"
}

/// Simple compute shader that multiplies each array element in place.
pub fn array_multiply_compute() -> &'static str {
    "@group(0) @binding(0)\nvar<storage, read_write> data: array<f32>;\n\n@group(0) @binding(1)\nvar<uniform> multiplier: f32;\n\n@compute @workgroup_size(64)\nfn cs_main(@builtin(global_invocation_id) global_id: vec3<u32>) {\n    let index = global_id.x;\n    if (index >= arrayLength(&data)) {\n        return;\n    }\n\n    data[index] = data[index] * multiplier;\n}\n"
}

} // verus!
