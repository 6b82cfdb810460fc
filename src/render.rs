//! What one frame draws: the program, its uniforms, the texture units, and
//! the layout of the vertex data.
use vstd::prelude::*;
use crate::setup::GResources;
use crate::upload::INDEX_COUNT;

verus! {

/// Components per vertex (x, y, z, w).
pub const VERTEX_COMPONENTS: i32 = 4;

/// Bytes per vertex component (one 32-bit value).
pub const COMPONENT_BYTES: i32 = 4;

/// Bytes from one vertex to the next: the vertices are tightly packed.
pub const STRIDE_BYTES: i32 = VERTEX_COMPONENTS * COMPONENT_BYTES;

/// One texture bound for a frame: the unit it goes on, the texture, and the
/// sampler uniform that is set to that unit.
#[derive(Clone, Copy, Debug, PartialEq, Eq, Structural)]
pub struct TextureBinding {
    pub unit: u32,
    pub texture: u32,
    pub sampler_location: i32,
}

/// Where the vertex positions come from: the attribute index, the number of
/// components, and the distance in bytes between vertices.
#[derive(Clone, Copy, Debug, PartialEq, Eq, Structural)]
pub struct VertexLayout {
    pub attribute: u32,
    pub components: i32,
    pub stride_bytes: i32,
}

/// The calls of one frame, as values.
#[derive(Clone, Copy, Debug)]
pub struct RenderPlan {
    pub program: u32,
    pub timer_location: i32,
    pub timer_micros: u128,
    pub bindings: [TextureBinding; 2],
    pub vertex_buffer: u32,
    pub element_buffer: u32,
    /// `None` when the program has no `position` attribute (location -1).
    pub layout: Option<VertexLayout>,
    pub index_count: i32,
}

/// Texture `i` of the bundle goes on unit `i`, and its sampler reads unit `i`.
pub open spec fn binding_of(res: GResources, i: int) -> TextureBinding {
    TextureBinding {
        unit: i as u32,
        texture: res.textures@[i],
        sampler_location: res.uniforms.textures@[i],
    }
}

/// Plans one frame from the bundle: the program with the current timer,
/// each texture on its own unit, the position attribute over tightly packed
/// four-component vertices, and the quad's indices.
pub fn render(res: &GResources) -> (r: RenderPlan)
    ensures
        r.program == res.program,
        r.timer_location == res.uniforms.timer,
        r.timer_micros == res.timer_micros,
        r.bindings@[0] == binding_of(*res, 0),
        r.bindings@[1] == binding_of(*res, 1),
        r.vertex_buffer == res.vertex_buffer,
        r.element_buffer == res.element_buffer,
        r.layout == (if res.attributes.position >= 0 {
            Some(
                VertexLayout {
                    attribute: res.attributes.position as u32,
                    components: VERTEX_COMPONENTS,
                    stride_bytes: STRIDE_BYTES,
                },
            )
        } else {
            None
        }),
        r.index_count == INDEX_COUNT,
{
    let layout = if res.attributes.position >= 0 {
        Some(
            VertexLayout {
                attribute: res.attributes.position as u32,
                components: VERTEX_COMPONENTS,
                stride_bytes: STRIDE_BYTES,
            },
        )
    } else {
        None
    };
    let first = TextureBinding {
        unit: 0,
        texture: res.textures[0],
        sampler_location: res.uniforms.textures[0],
    };
    let second = TextureBinding {
        unit: 1,
        texture: res.textures[1],
        sampler_location: res.uniforms.textures[1],
    };
    RenderPlan {
        program: res.program,
        timer_location: res.uniforms.timer,
        timer_micros: res.timer_micros,
        bindings: [first, second],
        vertex_buffer: res.vertex_buffer,
        element_buffer: res.element_buffer,
        layout,
        index_count: INDEX_COUNT as i32,
    }
}

} // verus!
