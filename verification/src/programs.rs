//! The two GPU programs that belong to the pipeline itself, and the quad
//! that every frame is drawn on.

use vstd::prelude::*;

verus! {

/// Entry point of every program.
pub const ENTRY_POINT: &'static str = "main";

/// The vertex program: hands position and texture coordinate through.
pub const VERTEX_SHADER: &'static str = "
struct VS_INPUT {
    float2 pos : POSITION;
    float2 tex : TEXCOORD;
};

struct VS_OUTPUT {
    float4 pos : SV_POSITION;
    float2 tex : TEXCOORD;
};

VS_OUTPUT main(VS_INPUT input) {
    VS_OUTPUT output;
    output.pos = float4(input.pos, 0.0f, 1.0f);
    output.tex = input.tex;
    return output;
}";

/// The compute program of the extend pass. It runs in groups of 8 by 8
/// threads, one thread per destination pixel, and does what
/// [`crate::extend::extend_edges`] does in software: each destination pixel
/// takes the staging pixel at its own position minus the offset, held
/// within the source part on both axes. `srcSize` is the size of that
/// part, the copied box at the origin of the staging texture, not the size
/// of the texture: what lies beyond the box was never written.
pub const EXTEND_COMPUTE_SHADER: &'static str = "
Texture2D<float4> srcTexture : register(t0);
RWTexture2D<float4> dstTexture : register(u0);

cbuffer ExtendParams : register(b0) {
    uint2 srcSize;
    uint2 dstSize;
    int2 srcOffset;
    uint2 padding;
}

[numthreads(8, 8, 1)]
void main(uint3 dispatchThreadID : SV_DispatchThreadID) {
    uint2 dstPos = dispatchThreadID.xy;

    if (dstPos.x >= dstSize.x || dstPos.y >= dstSize.y)
        return;

    int2 srcPos = int2(dstPos) - srcOffset;

    srcPos.x = clamp(srcPos.x, 0, (int)srcSize.x - 1);
    srcPos.y = clamp(srcPos.y, 0, (int)srcSize.y - 1);

    float4 color = srcTexture.Load(int3(srcPos, 0));
    dstTexture[dstPos] = color;
}";

/// One corner of the quad: a position in clip space and the texture
/// coordinate that goes with it.
#[derive(Clone, Copy, Debug, PartialEq, Eq, Structural)]
pub struct QuadVertex {
    pub x: i8,
    pub y: i8,
    pub u: u8,
    pub v: u8,
}

/// The vertex at `index` of the quad: the corners of the square from -1 to
/// 1 on both axes, column by column from the left, each column bottom
/// first.
pub open spec fn quad_vertex(index: int) -> QuadVertex {
    let x: i8 = if index < 2 {
        -1i8
    } else {
        1i8
    };
    let y: i8 = if index % 2 == 0 {
        -1i8
    } else {
        1i8
    };
    QuadVertex { x, y, u: ((x + 1) / 2) as u8, v: ((1 - y) / 2) as u8 }
}

/// The full-screen quad as a triangle strip of four vertices. The texture
/// runs from its top-left corner at the top-left of the screen to its
/// bottom-right corner at the bottom-right.
pub fn fullscreen_quad() -> (quad: Vec<QuadVertex>)
    ensures
        quad@.len() == 4,
        forall|i: int| 0 <= i < 4 ==> #[trigger] quad@[i] == quad_vertex(i),
        quad@[0] == (QuadVertex { x: -1i8, y: -1i8, u: 0, v: 1 }),
        quad@[1] == (QuadVertex { x: -1i8, y: 1, u: 0, v: 0 }),
        quad@[2] == (QuadVertex { x: 1, y: -1i8, u: 1, v: 1 }),
        quad@[3] == (QuadVertex { x: 1, y: 1, u: 1, v: 0 }),
{
    let mut quad: Vec<QuadVertex> = Vec::new();
    quad.push(QuadVertex { x: -1, y: -1, u: 0, v: 1 });
    quad.push(QuadVertex { x: -1, y: 1, u: 0, v: 0 });
    quad.push(QuadVertex { x: 1, y: -1, u: 1, v: 1 });
    quad.push(QuadVertex { x: 1, y: 1, u: 1, v: 0 });
    quad
}

/// The quad covers the whole of clip space: its vertices are the four
/// corners of the square from -1 to 1, each once, and the texture
/// coordinate of each is its place on the screen, counted from the top
/// left.
pub proof fn lemma_quad_covers_clip_space(x: int, y: int)
    requires
        x == -1 || x == 1,
        y == -1 || y == 1,
    ensures
        exists|i: int|
            0 <= i < 4 && (#[trigger] quad_vertex(i)).x == x && quad_vertex(i).y == y
                && 2 * quad_vertex(i).u == x + 1 && 2 * quad_vertex(i).v == 1 - y,
        forall|i: int, j: int|
            0 <= i < j < 4 ==> quad_vertex(i).x != quad_vertex(j).x || quad_vertex(i).y
                != quad_vertex(j).y,
{
    let i: int = (if x == -1 {
        0int
    } else {
        2int
    }) + (if y == -1 {
        0int
    } else {
        1int
    });
    assert(quad_vertex(i).x == x && quad_vertex(i).y == y);
    assert(quad_vertex(0).x == -1 && quad_vertex(0).y == -1);
    assert(quad_vertex(1).x == -1 && quad_vertex(1).y == 1);
    assert(quad_vertex(2).x == 1 && quad_vertex(2).y == -1);
    assert(quad_vertex(3).x == 1 && quad_vertex(3).y == 1);
}

} // verus!
