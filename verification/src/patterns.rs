//! Common compute patterns, assembled as WGSL source: a parallel reduction
//! and a prefix sum over a storage array.

use vstd::prelude::*;
use vstd::string::{StrSliceExecFns, StringExecFns};

verus! {

/// `s` with every occurrence of `pat` replaced by `rep`, scanning left to
/// right; replacements are not rescanned. An empty pattern replaces
/// nothing.
pub open spec fn spec_replace(s: Seq<char>, pat: Seq<char>, rep: Seq<char>) -> Seq<char>
    decreases s.len(),
{
    if pat.len() == 0 || s.len() < pat.len() {
        s
    } else if s.take(pat.len() as int) == pat {
        rep + spec_replace(s.skip(pat.len() as int), pat, rep)
    } else {
        seq![s[0]] + spec_replace(s.skip(1), pat, rep)
    }
}

/// Replace every occurrence of `pat` in `s` by `rep`, left to right.
fn replace_all(s: &str, pat: &str, rep: &str) -> (r: String)
    requires
        pat@.len() > 0,
    ensures
        r@ == spec_replace(s@, pat@, rep@),
{
    let n = s.unicode_len();
    let plen = pat.unicode_len();
    let pat_string: String = pat.to_owned();
    let mut out = String::new();
    let mut i: usize = 0;
    proof {
        assert(s@.skip(0) =~= s@);
        assert(Seq::<char>::empty() + spec_replace(s@, pat@, rep@) =~= spec_replace(
            s@,
            pat@,
            rep@,
        ));
    }
    while i < n
        invariant
            n == s@.len(),
            plen == pat@.len(),
            plen > 0,
            pat_string@ == pat@,
            0 <= i <= n,
            spec_replace(s@, pat@, rep@) == out@ + spec_replace(
                s@.skip(i as int),
                pat@,
                rep@,
            ),
        decreases n - i,
    {
        let ghost rest = s@.skip(i as int);
        let mut matched = false;
        if plen <= n - i {
            let candidate = s.substring_char(i, i + plen);
            matched = candidate.to_owned() == pat_string;
            proof {
                assert(rest.take(plen as int) =~= s@.subrange(i as int, i + plen));
            }
        }
        if matched {
            out.append(rep);
            proof {
                assert(rest.take(plen as int) == pat@);
                assert(spec_replace(rest, pat@, rep@) == rep@ + spec_replace(
                    rest.skip(plen as int),
                    pat@,
                    rep@,
                ));
                assert(rest.skip(plen as int) =~= s@.skip(i + plen));
                assert((out@ + spec_replace(rest, pat@, rep@)) =~= (out@ + rep@) + spec_replace(
                    s@.skip(i + plen),
                    pat@,
                    rep@,
                ));
            }
            i = i + plen;
        } else {
            out.append(s.substring_char(i, i + 1));
            proof {
                if plen <= n - i {
                    assert(rest.take(plen as int) != pat@);
                } else {
                    assert(rest.len() < plen);
                }
                assert(spec_replace(rest, pat@, rep@) == seq![rest[0]] + spec_replace(
                    rest.skip(1),
                    pat@,
                    rep@,
                ));
                assert(s@.subrange(i as int, i + 1) =~= seq![rest[0]]);
                assert(rest.skip(1) =~= s@.skip(i + 1));
                assert((out@ + spec_replace(rest, pat@, rep@)) =~= (out@ + s@.subrange(
                    i as int,
                    i + 1,
                )) + spec_replace(s@.skip(i + 1), pat@, rep@));
            }
            i = i + 1;
        }
    }
    proof {
        assert(s@.skip(n as int) =~= Seq::<char>::empty());
        assert(spec_replace(Seq::<char>::empty(), pat@, rep@) =~= Seq::<char>::empty());
        assert(out@ + Seq::<char>::empty() =~= out@);
    }
    out
}

/// The operation body of a reduction shader: `result` refers to the
/// accumulator and `data[i]` to the incoming element, rewritten onto the
/// shared-memory cells the kernel actually uses.
pub open spec fn spec_reduction_op(operation: Seq<char>) -> Seq<char> {
    spec_replace(
        spec_replace(operation, "result"@, "shared_data[tid]"@),
        "data[i]"@,
        "shared_data[idx]"@,
    )
}

/// The WGSL source of a parallel reduction over `data_type` elements.
pub open spec fn spec_reduction_shader(
    operation: Seq<char>,
    identity: Seq<char>,
    data_type: Seq<char>,
) -> Seq<char> {
    "\n@group(0) @binding(0) var<storage, read> input_data: array<"@ + data_type
        + ">;\n@group(0) @binding(1) var<storage, read_write> output_data: array<"@ + data_type
        + ">;\n\nvar<workgroup> shared_data: array<"@ + data_type
        + ", 256>;\n\n@workgroup_size(256, 1, 1)\n@compute\nfn cs_main(@builtin(global_invocation_id) global_id: vec3<u32>,\n          @builtin(local_invocation_id) local_id: vec3<u32>,\n          @builtin(workgroup_id) workgroup_id: vec3<u32>) {\n    let tid = local_id.x;\n    let bid = workgroup_id.x;\n    let i = bid * 256u + tid;\n    \n    // Load data into shared memory\n    if (i < arrayLength(&input_data)) {\n        shared_data[tid] = input_data[i];\n    } else {\n        shared_data[tid] = "@
        + identity
        + ";\n    }\n    \n    workgroupBarrier();\n    \n    // Reduction in shared memory\n    var s = 128u;\n    while (s > 0u) {\n        if (tid < s && (i + s) < arrayLength(&input_data)) {\n            let idx = tid + s;\n            "@
        + spec_reduction_op(operation)
        + "\n        }\n        workgroupBarrier();\n        s = s >> 1u;\n    }\n    \n    // Write result\n    if (tid == 0u) {\n        output_data[bid] = shared_data[0];\n    }\n}\n"@
}

/// Generate a parallel reduction shader. `operation` combines the
/// accumulator `result` with an element `data[i]` (for example
/// `result += data[i];`), `identity` is the operation's neutral element,
/// and `data_type` the element type.
pub fn reduction_shader(operation: &str, identity: &str, data_type: &str) -> (r: String)
    ensures
        r@ == spec_reduction_shader(operation@, identity@, data_type@),
{
    proof {
        reveal_strlit("result");
        reveal_strlit("data[i]");
    }
    let op = replace_all(
        replace_all(operation, "result", "shared_data[tid]").as_str(),
        "data[i]",
        "shared_data[idx]",
    );
    let mut out = String::new();
    out.append("\n@group(0) @binding(0) var<storage, read> input_data: array<");
    out.append(data_type);
    out.append(">;\n@group(0) @binding(1) var<storage, read_write> output_data: array<");
    out.append(data_type);
    out.append(">;\n\nvar<workgroup> shared_data: array<");
    out.append(data_type);
    out.append(
        ", 256>;\n\n@workgroup_size(256, 1, 1)\n@compute\nfn cs_main(@builtin(global_invocation_id) global_id: vec3<u32>,\n          @builtin(local_invocation_id) local_id: vec3<u32>,\n          @builtin(workgroup_id) workgroup_id: vec3<u32>) {\n    let tid = local_id.x;\n    let bid = workgroup_id.x;\n    let i = bid * 256u + tid;\n    \n    // Load data into shared memory\n    if (i < arrayLength(&input_data)) {\n        shared_data[tid] = input_data[i];\n    } else {\n        shared_data[tid] = ",
    );
    out.append(identity);
    out.append(
        ";\n    }\n    \n    workgroupBarrier();\n    \n    // Reduction in shared memory\n    var s = 128u;\n    while (s > 0u) {\n        if (tid < s && (i + s) < arrayLength(&input_data)) {\n            let idx = tid + s;\n            ",
    );
    out.append(op.as_str());
    out.append(
        "\n        }\n        workgroupBarrier();\n        s = s >> 1u;\n    }\n    \n    // Write result\n    if (tid == 0u) {\n        output_data[bid] = shared_data[0];\n    }\n}\n",
    );
    out
}

/// The WGSL source of an exclusive prefix sum over `data_type` elements.
pub open spec fn spec_prefix_sum_shader(data_type: Seq<char>) -> Seq<char> {
    "\n@group(0) @binding(0) var<storage, read> input_data: array<"@ + data_type
        + ">;\n@group(0) @binding(1) var<storage, read_write> output_data: array<"@ + data_type
        + ">;\n\nvar<workgroup> shared_data: array<"@ + data_type
        + ", 256>;\n\n@workgroup_size(256, 1, 1)\n@compute\nfn cs_main(@builtin(global_invocation_id) global_id: vec3<u32>,\n          @builtin(local_invocation_id) local_id: vec3<u32>) {\n    let tid = local_id.x;\n    let i = global_id.x;\n    \n    // Load data\n    if (i < arrayLength(&input_data)) {\n        shared_data[tid] = input_data[i];\n    } else {\n        shared_data[tid] = 0;\n    }\n    \n    workgroupBarrier();\n    \n    // Up-sweep phase\n    var d = 1u;\n    while (d < 256u) {\n        if (tid % (2u * d) == 0u) {\n            shared_data[tid + 2u * d - 1u] = shared_data[tid + 2u * d - 1u] + shared_data[tid + d - 1u];\n        }\n        workgroupBarrier();\n        d = d * 2u;\n    }\n    \n    // Clear the last element\n    if (tid == 0u) {\n        shared_data[255] = 0;\n    }\n    \n    workgroupBarrier();\n    \n    // Down-sweep phase\n    d = 128u;\n    while (d > 0u) {\n        if (tid % (2u * d) == 0u) {\n            let temp = shared_data[tid + d - 1u];\n            shared_data[tid + d - 1u] = shared_data[tid + 2u * d - 1u];\n            shared_data[tid + 2u * d - 1u] = shared_data[tid + 2u * d - 1u] + temp;\n        }\n        workgroupBarrier();\n        d = d >> 1u;\n    }\n    \n    // Write result\n    if (i < arrayLength(&output_data)) {\n        output_data[i] = shared_data[tid];\n    }\n}\n"@
}

/// Generate an exclusive prefix sum (scan) shader over `data_type`
/// elements.
pub fn prefix_sum_shader(data_type: &str) -> (r: String)
    ensures
        r@ == spec_prefix_sum_shader(data_type@),
{
    let mut out = String::new();
    out.append("\n@group(0) @binding(0) var<storage, read> input_data: array<");
    out.append(data_type);
    out.append(">;\n@group(0) @binding(1) var<storage, read_write> output_data: array<");
    out.append(data_type);
    out.append(">;\n\nvar<workgroup> shared_data: array<");
    out.append(data_type);
    out.append(
        ", 256>;\n\n@workgroup_size(256, 1, 1)\n@compute\nfn cs_main(@builtin(global_invocation_id) global_id: vec3<u32>,\n          @builtin(local_invocation_id) local_id: vec3<u32>) {\n    let tid = local_id.x;\n    let i = global_id.x;\n    \n    // Load data\n    if (i < arrayLength(&input_data)) {\n        shared_data[tid] = input_data[i];\n    } else {\n        shared_data[tid] = 0;\n    }\n    \n    workgroupBarrier();\n    \n    // Up-sweep phase\n    var d = 1u;\n    while (d < 256u) {\n        if (tid % (2u * d) == 0u) {\n            shared_data[tid + 2u * d - 1u] = shared_data[tid + 2u * d - 1u] + shared_data[tid + d - 1u];\n        }\n        workgroupBarrier();\n        d = d * 2u;\n    }\n    \n    // Clear the last element\n    if (tid == 0u) {\n        shared_data[255] = 0;\n    }\n    \n    workgroupBarrier();\n    \n    // Down-sweep phase\n    d = 128u;\n    while (d > 0u) {\n        if (tid % (2u * d) == 0u) {\n            let temp = shared_data[tid + d - 1u];\n            shared_data[tid + d - 1u] = shared_data[tid + 2u * d - 1u];\n            shared_data[tid + 2u * d - 1u] = shared_data[tid + 2u * d - 1u] + temp;\n        }\n        workgroupBarrier();\n        d = d >> 1u;\n    }\n    \n    // Write result\n    if (i < arrayLength(&output_data)) {\n        output_data[i] = shared_data[tid];\n    }\n}\n",
    );
    out
}

} // verus!
