//! Mesh geometry: validation, flat per-triangle colouring and upload layout.
//!
//! Coordinates are carried as the 32-bit IEEE-754 patterns of their values;
//! this module never computes with them, it only checks, copies and lays
//! them out. A colour channel is a 24-bit fraction `c / 2^24`.
use vstd::prelude::*;
use vstd::arithmetic::power2::{pow2, lemma2_to64, lemma_pow2_unfold, lemma_pow2_strictly_increases};

use glow::{NativeBuffer, NativeVertexArray};

verus! {

/// Full intensity of a colour channel: the fraction `2^24 / 2^24`.
pub const CHANNEL_ONE: u32 = 0x100_0000;

/// A vertex position; each coordinate is an IEEE-754 single-precision pattern.
#[derive(Clone, Copy, Debug, PartialEq, Eq, Structural)]
pub struct Position {
    pub x: u32,
    pub y: u32,
    pub z: u32,
}

/// An RGBA colour whose channels are fractions of `CHANNEL_ONE`.
#[derive(Clone, Copy, Debug, PartialEq, Eq, Structural)]
pub struct Rgba {
    pub r: u32,
    pub g: u32,
    pub b: u32,
    pub a: u32,
}

/// A texture coordinate pair, as IEEE-754 single-precision patterns.
#[derive(Clone, Copy, Debug, PartialEq, Eq, Structural)]
pub struct Uv {
    pub u: u32,
    pub v: u32,
}

/// Why a mesh was refused.
#[derive(Clone, Copy, Debug, PartialEq, Eq, Structural)]
pub enum MeshError {
    /// The mesh has no vertices.
    NoVertices,
    /// The index count is not a multiple of three.
    PartialTriangle,
    /// The index at this position names no vertex.
    IndexOutOfRange(usize),
}

/// Three raw random words: the red, green and blue draws of one triangle.
pub type ColorDraw = (u32, u32, u32);

pub open spec fn index_in_range(vertex_count: nat, indices: Seq<u32>, k: int) -> bool {
    indices[k] < vertex_count
}

pub open spec fn indices_in_range(vertex_count: nat, indices: Seq<u32>) -> bool {
    forall|k: int| 0 <= k < indices.len() ==> index_in_range(vertex_count, indices, k)
}

/// The constraints on a mesh: some vertex, whole triangles, indices that name vertices.
pub open spec fn valid_geometry(positions: Seq<Position>, indices: Seq<u32>) -> bool {
    &&& positions.len() > 0
    &&& indices.len() % 3 == 0
    &&& indices_in_range(positions.len(), indices)
}

/// The first index position that names no vertex.
pub open spec fn first_bad_index(vertex_count: nat, indices: Seq<u32>, k: int) -> bool {
    &&& 0 <= k < indices.len()
    &&& !index_in_range(vertex_count, indices, k)
    &&& forall|j: int| 0 <= j < k ==> index_in_range(vertex_count, indices, j)
}

/// The number of triangle groups of `n` vertices: vertices `3g`, `3g+1`, `3g+2`.
pub open spec fn group_count(n: nat) -> nat {
    (n + 2) / 3
}

/// The channel that a raw random word gives: its 24 high bits.
pub open spec fn channel_of(w: u32) -> u32 {
    w >> 8u32
}

pub open spec fn color_of_draw(d: ColorDraw) -> Rgba {
    Rgba { r: channel_of(d.0), g: channel_of(d.1), b: channel_of(d.2), a: CHANNEL_ONE }
}

/// Vertex `i` takes the colour drawn for its group `i / 3`.
pub open spec fn colors_from_draws(draws: Seq<ColorDraw>, n: nat) -> Seq<Rgba> {
    Seq::new(n, |i: int| color_of_draw(draws[i / 3]))
}

/// Every vertex that does not start a group shares the colour of the vertex before it.
pub open spec fn flat_shaded(colors: Seq<Rgba>) -> bool {
    forall|i: int| 0 < i < colors.len() && i % 3 != 0 ==> #[trigger] colors[i] == colors[i - 1]
}

pub open spec fn channel_valid(c: u32) -> bool {
    c < CHANNEL_ONE
}

/// Channels below full intensity and an opaque alpha.
pub open spec fn color_valid(c: Rgba) -> bool {
    channel_valid(c.r) && channel_valid(c.g) && channel_valid(c.b) && c.a == CHANNEL_ONE
}

proof fn lemma_channel_of_valid(w: u32)
    ensures
        channel_valid(channel_of(w)),
{
    assert((w >> 8u32) < 0x100_0000u32) by (bit_vector);
}

/// The number of triangle groups of `n` vertices.
pub fn color_groups(n: usize) -> (r: usize)
    ensures
        r == group_count(n as nat),
{
    if n % 3 == 0 {
        n / 3
    } else {
        n / 3 + 1
    }
}

/// Colours for `n` vertices, one drawn colour per group of three.
pub fn flat_colors(n: usize, draws: &Vec<ColorDraw>) -> (r: Vec<Rgba>)
    requires
        draws@.len() == group_count(n as nat),
    ensures
        r@ == colors_from_draws(draws@, n as nat),
{
    let mut colors: Vec<Rgba> = Vec::new();
    let mut i: usize = 0;
    while i < n
        invariant
            i <= n,
            draws@.len() == group_count(n as nat),
            colors@ == colors_from_draws(draws@, i as nat),
        decreases n - i,
    {
        let c = if i % 3 == 0 {
            let d = draws[i / 3];
            Rgba { r: d.0 >> 8, g: d.1 >> 8, b: d.2 >> 8, a: CHANNEL_ONE }
        } else {
            colors[i - 1]
        };
        colors.push(c);
        i = i + 1;
        assert(colors@ =~= colors_from_draws(draws@, i as nat));
    }
    colors
}

/// Whether `e` is the error owed for invalid geometry: the first constraint that fails.
pub open spec fn geometry_error(positions: Seq<Position>, indices: Seq<u32>, e: MeshError) -> bool {
    match e {
        MeshError::NoVertices => positions.len() == 0,
        MeshError::PartialTriangle => positions.len() > 0 && indices.len() % 3 != 0,
        MeshError::IndexOutOfRange(k) => positions.len() > 0 && indices.len() % 3 == 0
            && first_bad_index(positions.len(), indices, k as int),
    }
}

/// Checks the constraints on a mesh, reporting the first that fails.
pub fn check_geometry(positions: &Vec<Position>, indices: &Vec<u32>) -> (r: Result<(), MeshError>)
    ensures
        r is Ok <==> valid_geometry(positions@, indices@),
        r matches Err(e) ==> geometry_error(positions@, indices@, e),
{
    if positions.len() == 0 {
        return Err(MeshError::NoVertices);
    }
    if indices.len() % 3 != 0 {
        return Err(MeshError::PartialTriangle);
    }
    let n = positions.len();
    let mut k: usize = 0;
    while k < indices.len()
        invariant
            k <= indices@.len(),
            n == positions@.len(),
            n > 0,
            indices@.len() % 3 == 0,
            forall|j: int| 0 <= j < k ==> index_in_range(n as nat, indices@, j),
        decreases indices@.len() - k,
    {
        if indices[k] as usize >= n {
            assert(!index_in_range(n as nat, indices@, k as int));
            return Err(MeshError::IndexOutOfRange(k));
        }
        k = k + 1;
    }
    Ok(())
}

/// Relies on rand::random: a value drawn from the thread-local generator.
/// Nothing is known of the value.
pub assume_specification<T>[ rand::random::<T> ]() -> (r: T)
    where
        rand::distributions::Standard: rand::distributions::Distribution<T>,
;

/// Draws the raw words for `groups` colours.
fn draw_colors(groups: usize) -> (r: Vec<ColorDraw>)
    ensures
        r@.len() == groups,
{
    let mut draws: Vec<ColorDraw> = Vec::new();
    let mut g: usize = 0;
    while g < groups
        invariant
            g <= groups,
            draws@.len() == g,
        decreases groups - g,
    {
        let r = rand::random::<u32>();
        let gr = rand::random::<u32>();
        let b = rand::random::<u32>();
        draws.push((r, gr, b));
        g = g + 1;
    }
    draws
}

pub open spec fn zero_uvs(n: nat) -> Seq<Uv> {
    Seq::new(n, |i: int| Uv { u: 0, v: 0 })
}

fn make_zero_uvs(n: usize) -> (r: Vec<Uv>)
    ensures
        r@ == zero_uvs(n as nat),
{
    let mut uvs: Vec<Uv> = Vec::new();
    let mut i: usize = 0;
    while i < n
        invariant
            i <= n,
            uvs@ == zero_uvs(i as nat),
        decreases n - i,
    {
        uvs.push(Uv { u: 0, v: 0 });
        i = i + 1;
        assert(uvs@ =~= zero_uvs(i as nat));
    }
    uvs
}

/// The GPU objects that hold one mesh.
#[derive(Clone, Copy, Debug)]
pub struct MeshHandles {
    pub vertex_array: NativeVertexArray,
    pub position_buffer: NativeBuffer,
    pub color_buffer: NativeBuffer,
    pub uv_buffer: NativeBuffer,
    pub index_buffer: NativeBuffer,
}

/// Where a mesh stands with its GPU objects: each is created once and released once.
#[derive(Clone, Copy, Debug)]
pub enum GpuState {
    /// No GPU object holds the mesh yet.
    Unallocated,
    /// The mesh owns these objects.
    Live(MeshHandles),
    /// The objects were handed back for deletion; none may be used again.
    Released,
}

/// An indexed triangle draw over a mesh's whole index buffer.
#[derive(Clone, Copy, Debug)]
pub struct DrawCall {
    pub vertex_array: NativeVertexArray,
    pub count: i32,
}

/// One mesh: vertices, triangles, per-vertex colours and texture coordinates,
/// and the GPU objects that hold them.
#[derive(Debug)]
pub struct Mesh {
    pub positions: Vec<Position>,
    pub indicies: Vec<u32>,
    pub uvs: Vec<Uv>,
    pub colors: Vec<Rgba>,
    pub gpu: GpuState,
}

impl Mesh {
    /// Valid geometry with one colour and one texture coordinate per vertex,
    /// flat colours per triangle group, and zero texture coordinates.
    pub open spec fn wf(&self) -> bool {
        &&& valid_geometry(self.positions@, self.indicies@)
        &&& self.colors@.len() == self.positions@.len()
        &&& self.uvs@ == zero_uvs(self.positions@.len())
        &&& flat_shaded(self.colors@)
        &&& forall|i: int| 0 <= i < self.colors@.len() ==> color_valid(#[trigger] self.colors@[i])
    }

    /// Builds a mesh whose colours come from the given draws, one per group of three vertices.
    pub fn with_color_draws(positions: Vec<Position>, indicies: Vec<u32>, draws: &Vec<ColorDraw>) -> (r: Result<Mesh, MeshError>)
        requires
            draws@.len() == group_count(positions@.len()),
        ensures
            r is Ok <==> valid_geometry(positions@, indicies@),
            r matches Err(e) ==> geometry_error(positions@, indicies@, e),
            r matches Ok(m) ==> {
                &&& m.wf()
                &&& m.positions@ == positions@
                &&& m.indicies@ == indicies@
                &&& m.colors@ == colors_from_draws(draws@, positions@.len())
                &&& m.gpu is Unallocated
            },
    {
        match check_geometry(&positions, &indicies) {
            Err(e) => Err(e),
            Ok(()) => {
                let n = positions.len();
                let colors = flat_colors(n, draws);
                let uvs = make_zero_uvs(n);
                proof {
                    draws_give_flat_colors(draws@, n as nat);
                }
                Ok(Mesh { positions, indicies, uvs, colors, gpu: GpuState::Unallocated })
            },
        }
    }

    /// Builds a mesh, drawing one random colour for each group of three vertices.
    pub fn new(positions: Vec<Position>, indicies: Vec<u32>) -> (r: Result<Mesh, MeshError>)
        ensures
            r is Ok <==> valid_geometry(positions@, indicies@),
            r matches Err(e) ==> geometry_error(positions@, indicies@, e),
            r matches Ok(m) ==> {
                &&& m.wf()
                &&& m.positions@ == positions@
                &&& m.indicies@ == indicies@
                &&& m.gpu is Unallocated
            },
    {
        let draws = draw_colors(color_groups(positions.len()));
        Mesh::with_color_draws(positions, indicies, &draws)
    }

    /// Everything but the GPU state is as in `other`.
    pub open spec fn same_data(&self, other: &Mesh) -> bool {
        &&& self.positions@ == other.positions@
        &&& self.indicies@ == other.indicies@
        &&& self.uvs@ == other.uvs@
        &&& self.colors@ == other.colors@
    }

    /// Gives the mesh the GPU objects that were created for it. A mesh takes
    /// objects once: otherwise they are handed back and nothing changes.
    pub fn attach(&mut self, handles: MeshHandles) -> (r: Result<(), MeshHandles>)
        ensures
            final(self).same_data(old(self)),
            old(self).gpu is Unallocated ==> r is Ok && final(self).gpu == GpuState::Live(handles),
            !(old(self).gpu is Unallocated) ==> r == Err::<(), MeshHandles>(handles)
                && final(self).gpu == old(self).gpu,
    {
        match self.gpu {
            GpuState::Unallocated => {
                self.gpu = GpuState::Live(handles);
                Ok(())
            },
            _ => Err(handles),
        }
    }

    /// Releases the mesh's GPU objects: returns those to delete, which no
    /// later call returns again, and leaves the mesh unable to draw.
    pub fn destroy(&mut self) -> (r: Option<MeshHandles>)
        ensures
            final(self).same_data(old(self)),
            final(self).gpu is Released,
            r == (match old(self).gpu {
                GpuState::Live(h) => Some(h),
                _ => None,
            }),
    {
        let r = match self.gpu {
            GpuState::Live(h) => Some(h),
            _ => None,
        };
        self.gpu = GpuState::Released;
        r
    }

    /// The draw over the whole index buffer, while the mesh owns its GPU
    /// objects and its index count fits a draw's count.
    pub open spec fn spec_draw_call(&self) -> Option<DrawCall> {
        match self.gpu {
            GpuState::Live(h) => if self.indicies@.len() <= i32::MAX {
                Some(DrawCall { vertex_array: h.vertex_array, count: self.indicies@.len() as i32 })
            } else {
                None
            },
            _ => None,
        }
    }

    /// The draw over the whole index buffer, while the mesh owns its GPU
    /// objects and its index count fits a draw's count.
    pub fn draw_call(&self) -> (r: Option<DrawCall>)
        ensures
            r == self.spec_draw_call(),
    {
        match self.gpu {
            GpuState::Live(h) => if self.indicies.len() <= i32::MAX as usize {
                Some(DrawCall { vertex_array: h.vertex_array, count: self.indicies.len() as i32 })
            } else {
                None
            },
            _ => None,
        }
    }
}


/// Whatever the random draws, every vertex that does not start a group of
/// three has the colour of the vertex before it, and every colour has
/// channels below full intensity and an opaque alpha.
pub proof fn draws_give_flat_colors(draws: Seq<ColorDraw>, n: nat)
    requires
        draws.len() == group_count(n),
    ensures
        flat_shaded(colors_from_draws(draws, n)),
        forall|i: int| 0 <= i < n ==> color_valid(#[trigger] colors_from_draws(draws, n)[i]),
{
    let cs = colors_from_draws(draws, n);
    assert forall|i: int| 0 < i < cs.len() && i % 3 != 0 implies #[trigger] cs[i] == cs[i - 1] by {
        assert(i / 3 == (i - 1) / 3);
    }
    assert forall|i: int| 0 <= i < n implies color_valid(#[trigger] cs[i]) by {
        let d = draws[i / 3];
        lemma_channel_of_valid(d.0);
        lemma_channel_of_valid(d.1);
        lemma_channel_of_valid(d.2);
    }
}

/// The IEEE-754 single-precision pattern of 1.0, the fourth component of an uploaded position.
pub const ONE_BITS: u32 = 0x3F80_0000;

/// Component `c` (0 to 3) of a position padded to four components.
pub open spec fn padded_component(p: Position, c: int) -> u32 {
    if c == 0 {
        p.x
    } else if c == 1 {
        p.y
    } else if c == 2 {
        p.z
    } else {
        ONE_BITS
    }
}

/// Positions laid out as `x, y, z, 1.0` each.
pub open spec fn position_words_of(ps: Seq<Position>) -> Seq<u32> {
    Seq::new(4 * ps.len(), |j: int| padded_component(ps[j / 4], j % 4))
}

/// Texture coordinates laid out as `u, v` each.
pub open spec fn uv_words_of(uvs: Seq<Uv>) -> Seq<u32> {
    Seq::new(2 * uvs.len(), |j: int| if j % 2 == 0 { uvs[j / 2].u } else { uvs[j / 2].v })
}

/// The upload layout of positions: four words per vertex.
pub fn position_words(ps: &Vec<Position>) -> (r: Vec<u32>)
    requires
        4 * ps@.len() <= usize::MAX,
    ensures
        r@ == position_words_of(ps@),
{
    let mut words: Vec<u32> = Vec::new();
    let mut i: usize = 0;
    while i < ps.len()
        invariant
            i <= ps@.len(),
            4 * ps@.len() <= usize::MAX,
            words@ == position_words_of(ps@.take(i as int)),
        decreases ps@.len() - i,
    {
        let p = ps[i];
        words.push(p.x);
        words.push(p.y);
        words.push(p.z);
        words.push(ONE_BITS);
        i = i + 1;
        assert(words@ =~= position_words_of(ps@.take(i as int)));
    }
    assert(ps@.take(ps@.len() as int) =~= ps@);
    words
}

/// The upload layout of texture coordinates: two words per vertex.
pub fn uv_words(uvs: &Vec<Uv>) -> (r: Vec<u32>)
    requires
        2 * uvs@.len() <= usize::MAX,
    ensures
        r@ == uv_words_of(uvs@),
{
    let mut words: Vec<u32> = Vec::new();
    let mut i: usize = 0;
    while i < uvs.len()
        invariant
            i <= uvs@.len(),
            words@ == uv_words_of(uvs@.take(i as int)),
        decreases uvs@.len() - i,
    {
        let t = uvs[i];
        words.push(t.u);
        words.push(t.v);
        i = i + 1;
        assert(words@ =~= uv_words_of(uvs@.take(i as int)));
    }
    assert(uvs@.take(uvs@.len() as int) =~= uvs@);
    words
}

/// Whether `b` is the IEEE-754 single-precision pattern of the fraction
/// `k / 2^24`: zero for zero, else a positive normal number whose exponent
/// field `e` and mantissa `m` give `(2^23 + m) * 2^(e - 150) == k * 2^-24`.
pub open spec fn encodes_fraction(k: u32, b: u32) -> bool {
    if k == 0 {
        b == 0
    } else {
        let e = b / 0x80_0000;
        let m = b % 0x80_0000;
        &&& 1 <= e <= 127
        &&& (0x80_0000 + m) * 2 == k * pow2((127 - e) as nat)
    }
}

/// The IEEE-754 single-precision pattern of the channel fraction `k / 2^24`.
pub fn channel_bits(k: u32) -> (b: u32)
    requires
        k <= CHANNEL_ONE,
    ensures
        encodes_fraction(k, b),
{
    if k == 0 {
        return 0;
    }
    let mut m: u32 = k;
    let mut e: u32 = 127;
    proof {
        lemma2_to64();
        assert(k * pow2(0) == k);
    }
    while m < 0x100_0000
        invariant
            0 < k <= CHANNEL_ONE,
            1 <= e <= 127,
            m as nat == k * pow2((127 - e) as nat),
            pow2((127 - e) as nat) <= m,
            m < 0x200_0000,
            m % 2 == 0 || m < 0x100_0000,
        decreases e,
    {
        proof {
            lemma2_to64();
            if 127 - e >= 24 {
                if 127 - e > 24 {
                    lemma_pow2_strictly_increases(24, (127 - e) as nat);
                }
                assert(false);
            }
            lemma_pow2_unfold((128 - e) as nat);
            assert(k * pow2((128 - e) as nat) == (k * pow2((127 - e) as nat)) * 2) by (nonlinear_arith)
                requires pow2((128 - e) as nat) == 2 * pow2((127 - e) as nat);
        }
        m = m * 2;
        e = e - 1;
    }
    let mant: u32 = m / 2 - 0x80_0000;
    let b: u32 = e * 0x80_0000 + mant;
    assert(b / 0x80_0000 == e && b % 0x80_0000 == mant) by (nonlinear_arith)
        requires b == e * 0x80_0000 + mant, mant < 0x80_0000;
    b
}

/// Channel `c` (0 to 3) of a colour.
pub open spec fn color_channel(col: Rgba, c: int) -> u32 {
    if c == 0 {
        col.r
    } else if c == 1 {
        col.g
    } else if c == 2 {
        col.b
    } else {
        col.a
    }
}

/// `words` lays colours out as four channel patterns each, in the order r, g, b, a.
pub open spec fn color_words_of(colors: Seq<Rgba>, words: Seq<u32>) -> bool {
    &&& words.len() == 4 * colors.len()
    &&& forall|j: int|
        0 <= j < words.len() ==> encodes_fraction(color_channel(colors[j / 4], j % 4), #[trigger] words[j])
}

/// The upload layout of colours: four channel patterns per vertex.
pub fn color_words(colors: &Vec<Rgba>) -> (r: Vec<u32>)
    requires
        4 * colors@.len() <= usize::MAX,
        forall|i: int| 0 <= i < colors@.len() ==> color_valid(#[trigger] colors@[i]),
    ensures
        color_words_of(colors@, r@),
{
    let mut words: Vec<u32> = Vec::new();
    let mut i: usize = 0;
    while i < colors.len()
        invariant
            i <= colors@.len(),
            4 * colors@.len() <= usize::MAX,
            forall|i: int| 0 <= i < colors@.len() ==> color_valid(#[trigger] colors@[i]),
            color_words_of(colors@.take(i as int), words@),
        decreases colors@.len() - i,
    {
        let c = colors[i];
        assert(color_valid(colors@[i as int]));
        let ghost before = words@;
        words.push(channel_bits(c.r));
        words.push(channel_bits(c.g));
        words.push(channel_bits(c.b));
        words.push(channel_bits(c.a));
        i = i + 1;
        assert forall|j: int| 0 <= j < words@.len() implies encodes_fraction(
            color_channel(colors@.take(i as int)[j / 4], j % 4),
            #[trigger] words@[j],
        ) by {
            if j < before.len() {
                assert(words@[j] == before[j]);
                assert(colors@.take(i as int)[j / 4] == colors@.take(i - 1)[j / 4]);
            } else {
                assert(j / 4 == i - 1);
            }
        }
    }
    assert(colors@.take(colors@.len() as int) =~= colors@);
    words
}

/// `bytes` holds `words` in memory order: four bytes per word, in the same
/// order, and equal words exactly where the byte groups are equal.
pub open spec fn bytes_of_words(words: Seq<u32>, bytes: Seq<u8>) -> bool {
    &&& bytes.len() == 4 * words.len()
    &&& forall|i: int, j: int|
        0 <= i < words.len() && 0 <= j < words.len() ==> (#[trigger] words[i] == #[trigger] words[j]
            <==> bytes.subrange(4 * i, 4 * i + 4) == bytes.subrange(4 * j, 4 * j + 4))
}

/// Relies on bytemuck::cast_slice from `u32` to `u8`: the words' own memory
/// read as bytes, four per word, in the machine's byte order.
#[verifier::external_body]
fn word_bytes(words: &Vec<u32>) -> (r: Vec<u8>)
    ensures
        bytes_of_words(words@, r@),
{
    bytemuck::cast_slice::<u32, u8>(words.as_slice()).to_vec()
}

/// The attribute slot of positions.
pub const POSITION_SLOT: u32 = 0;
/// The attribute slot of colours.
pub const COLOR_SLOT: u32 = 1;
/// The attribute slot of texture coordinates.
pub const UV_SLOT: u32 = 2;

/// The contents of one vertex attribute buffer and where it is bound.
#[derive(Clone, Debug)]
pub struct AttributeUpload {
    pub slot: u32,
    pub components: i32,
    pub bytes: Vec<u8>,
}

/// Everything that is uploaded for one mesh.
#[derive(Clone, Debug)]
pub struct MeshUpload {
    pub index_bytes: Vec<u8>,
    pub position: AttributeUpload,
    pub color: AttributeUpload,
    pub uv: AttributeUpload,
}

impl Mesh {
    /// The buffer contents and attribute layout of the mesh: raw indices;
    /// positions padded to four components in slot 0; colours as four
    /// components in slot 1; texture coordinates as two in slot 2.
    pub fn upload(&self) -> (r: MeshUpload)
        requires
            self.wf(),
            4 * self.positions@.len() <= usize::MAX,
            4 * self.indicies@.len() <= usize::MAX,
        ensures
            bytes_of_words(self.indicies@, r.index_bytes@),
            r.position.slot == POSITION_SLOT && r.position.components == 4,
            bytes_of_words(position_words_of(self.positions@), r.position.bytes@),
            r.color.slot == COLOR_SLOT && r.color.components == 4,
            exists|w: Seq<u32>| color_words_of(self.colors@, w) && bytes_of_words(w, r.color.bytes@),
            r.uv.slot == UV_SLOT && r.uv.components == 2,
            bytes_of_words(uv_words_of(self.uvs@), r.uv.bytes@),
    {
        let index_bytes = word_bytes(&self.indicies);
        let pw = position_words(&self.positions);
        let cw = color_words(&self.colors);
        let uw = uv_words(&self.uvs);
        let position = AttributeUpload { slot: POSITION_SLOT, components: 4, bytes: word_bytes(&pw) };
        let color = AttributeUpload { slot: COLOR_SLOT, components: 4, bytes: word_bytes(&cw) };
        let uv = AttributeUpload { slot: UV_SLOT, components: 2, bytes: word_bytes(&uw) };
        MeshUpload { index_bytes, position, color, uv }
    }
}

} // verus!
