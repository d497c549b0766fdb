use vstd::prelude::*;

verus! {

/// A corner of the drawn geometry: where it lies in the plane and which texture
/// coordinate is sampled there.  Coordinates are whole numbers.
#[derive(Clone, Copy, Debug, PartialEq, Eq)]
pub struct Vertex {
    pub pos: [i16; 2],
    pub uv: [i16; 2],
}

impl Vertex {
    pub fn new(p: [i16; 2], u: [i16; 2]) -> (vertex: Vertex)
        ensures
            vertex.pos == p,
            vertex.uv == u,
    {
        Vertex { pos: p, uv: u }
    }
}

/// The unit square as two triangles, its texture coordinates stretched so that
/// the texture repeats fifty times along each side.
pub open spec fn quad() -> Seq<Vertex> {
    seq![
        Vertex { pos: [0, 0], uv: [0, 0] },
        Vertex { pos: [1, 0], uv: [50, 0] },
        Vertex { pos: [1, 1], uv: [50, 50] },
        Vertex { pos: [1, 1], uv: [0, 0] },
        Vertex { pos: [0, 1], uv: [0, 50] },
        Vertex { pos: [0, 0], uv: [50, 50] },
    ]
}

/// The contents of the vertex buffer.
pub fn quad_vertices() -> (vertices: Vec<Vertex>)
    ensures
        vertices@ == quad(),
{
    let mut vertices: Vec<Vertex> = Vec::new();
    vertices.push(Vertex::new([0, 0], [0, 0]));
    vertices.push(Vertex::new([1, 0], [50, 0]));
    vertices.push(Vertex::new([1, 1], [50, 50]));
    vertices.push(Vertex::new([1, 1], [0, 0]));
    vertices.push(Vertex::new([0, 1], [0, 50]));
    vertices.push(Vertex::new([0, 0], [50, 50]));
    assert(vertices@ =~= quad());
    vertices
}

/// Where the camera stands.
pub const CAMERA_EYE: [i16; 3] = [0, 0, 8];

/// The point the camera looks at.
pub const CAMERA_TARGET: [i16; 3] = [0, 0, 0];

/// The direction that is up for the camera.
pub const CAMERA_UP: [i16; 3] = [0, 1, 0];

/// The background colour as red, green, blue and opacity, each in tenths of full
/// intensity.
pub const CLEAR_COLOR_TENTHS: [u8; 4] = [1, 2, 3, 10];

/// How texels are blended when the texture is sampled.
#[derive(Clone, Copy, Debug, PartialEq, Eq, Structural)]
pub enum FilterMethod {
    /// The nearest texel of the finest level.
    Scale,
    /// The nearest texel of the nearest level.
    Mipmap,
    /// Four texels of the nearest level.
    Bilinear,
    /// Four texels of each of the two nearest levels.
    Trilinear,
    /// As trilinear, with up to this many samples along the steepest direction.
    Anisotropic(u8),
}

/// What is sampled outside the texture's own square.
#[derive(Clone, Copy, Debug, PartialEq, Eq, Structural)]
pub enum WrapMode {
    /// The texture, repeated.
    Tile,
    /// The texture, repeated and flipped at each edge.
    Mirror,
    /// The texel at the nearest edge.
    Clamp,
    /// A border colour.
    Border,
}

/// The texture is sampled with the smoothest filter.
pub const TEXTURE_FILTER: FilterMethod = FilterMethod::Trilinear;

/// The texture repeats over the geometry.
pub const TEXTURE_WRAP: WrapMode = WrapMode::Tile;

/// Number of detail levels of the texture.
pub const TEXTURE_LEVELS: usize = 3;

/// Side of the texture's finest level, in texels.
pub const TEXTURE_SIZE: usize = 4;

/// A texel without colour.
pub const BLANK: [u8; 4] = [0x00, 0x00, 0x00, 0x00];

/// The dots of the finest level.
pub const RED: [u8; 4] = [0xc0, 0x00, 0x00, 0x00];

/// The middle level.
pub const GREEN: [u8; 4] = [0x00, 0xc0, 0x00, 0x00];

/// The coarsest level.
pub const BLUE: [u8; 4] = [0x00, 0x00, 0xc0, 0x00];

/// Side of a detail level: each level halves the one before it.
pub open spec fn level_side(level: int) -> int {
    if level == 0 {
        4
    } else if level == 1 {
        2
    } else if level == 2 {
        1
    } else {
        0
    }
}

/// The colour of one texel.  The finest level shows a red two-by-two dot in the
/// middle of a blank square; the coarser levels are plain green and plain blue.
pub open spec fn texel(level: int, x: int, y: int) -> [u8; 4] {
    if level == 0 {
        if 1 <= x <= 2 && 1 <= y <= 2 {
            RED
        } else {
            BLANK
        }
    } else if level == 1 {
        GREEN
    } else {
        BLUE
    }
}

/// One detail level, row by row.
pub open spec fn level_texels(level: int) -> Seq<[u8; 4]> {
    Seq::new(
        (level_side(level) * level_side(level)) as nat,
        |i: int| texel(level, i % level_side(level), i / level_side(level)),
    )
}

fn side_of(level: usize) -> (side: usize)
    ensures
        side == level_side(level as int),
{
    if level == 0 {
        TEXTURE_SIZE
    } else if level == 1 {
        TEXTURE_SIZE / 2
    } else if level == 2 {
        TEXTURE_SIZE / 4
    } else {
        0
    }
}

fn texel_at(level: usize, x: usize, y: usize) -> (colour: [u8; 4])
    ensures
        colour == texel(level as int, x as int, y as int),
{
    if level == 0 {
        if 1 <= x && x <= 2 && 1 <= y && y <= 2 {
            RED
        } else {
            BLANK
        }
    } else if level == 1 {
        GREEN
    } else {
        BLUE
    }
}

/// One detail level of the texture, row by row; levels past the coarsest are empty.
pub fn texture_level(level: usize) -> (texels: Vec<[u8; 4]>)
    ensures
        texels@ == level_texels(level as int),
{
    let side: usize = side_of(level);
    let count: usize = side * side;
    let mut texels: Vec<[u8; 4]> = Vec::new();
    let mut i: usize = 0;
    while i < count
        invariant
            0 <= side <= 4,
            side == level_side(level as int),
            count == side * side,
            i <= count,
            texels@.len() == i,
            forall|j: int|
                0 <= j < i ==> texels@[j] == texel(
                    level as int,
                    j % level_side(level as int),
                    j / level_side(level as int),
                ),
        decreases count - i,
    {
        texels.push(texel_at(level, i % side, i / side));
        i += 1;
    }
    assert(texels@ =~= level_texels(level as int));
    texels
}

/// All detail levels, finest first.
pub fn texture_levels() -> (levels: Vec<Vec<[u8; 4]>>)
    ensures
        levels@.len() == TEXTURE_LEVELS,
        forall|l: int| 0 <= l < TEXTURE_LEVELS ==> (#[trigger] levels@[l])@ == level_texels(l),
{
    let mut levels: Vec<Vec<[u8; 4]>> = Vec::new();
    let mut level: usize = 0;
    while level < TEXTURE_LEVELS
        invariant
            level <= TEXTURE_LEVELS,
            levels@.len() == level,
            forall|l: int| 0 <= l < level ==> (#[trigger] levels@[l])@ == level_texels(l),
        decreases TEXTURE_LEVELS - level,
    {
        levels.push(texture_level(level));
        level += 1;
    }
    levels
}

} // verus!
