//! GPU-visible record layout: fixed-stride, 16-byte-aligned records for
//! sphere instances, materials and the per-frame camera and light uniforms,
//! and their byte-exact little-endian encodings.
//!
//! Every record is a sequence of 32-bit words (float bit patterns and
//! unsigned integers), laid out word after word with explicit zero padding;
//! the encoders' contracts pin every byte, and the readback law shows that
//! decoding any encoded record yields exactly the uploaded fields.

use vstd::prelude::*;

use crate::{MATERIAL_CAPACITY, ONE_F32_BITS, SPHERE_CAPACITY};

verus! {

/// Byte stride of one sphere record: five meaningful words padded with
/// three zero words to a multiple of 16 bytes.
pub const SPHERE_STRIDE: u64 = 32;

/// Byte stride of one material record: nine meaningful words padded with
/// three zero words to a multiple of 16 bytes.
pub const MATERIAL_STRIDE: u64 = 48;

/// Byte size of the per-frame camera uniform: a 4x4 matrix and a
/// homogeneous position.
pub const CAMERA_UNIFORM_SIZE: u64 = 80;

/// Byte size of the per-frame light uniform: one homogeneous position.
pub const LIGHT_UNIFORM_SIZE: u64 = 16;

/// One sphere instance; scalars are float bit patterns except the material
/// index, which is a plain index into the material table.
#[derive(Clone, Copy, PartialEq, Eq, Debug)]
pub struct Sphere {
    pub position: [u32; 3],
    pub radius: u32,
    pub material_index: u32,
}

/// One material record; all fields are float bit patterns.
#[derive(Clone, Copy, PartialEq, Eq, Debug)]
pub struct Material {
    pub base_color: [u32; 4],
    pub metallic_roughness: [u32; 2],
    pub emission: [u32; 3],
}

/// A sphere may only reference a material slot below the table's capacity.
pub open spec fn sphere_valid(s: Sphere, material_count: u64) -> bool {
    s.material_index < material_count
}

/// The four little-endian bytes of one 32-bit word.
pub open spec fn le_bytes(x: u32) -> Seq<u8> {
    seq![
        (x & 0xff) as u8,
        ((x >> 8) & 0xff) as u8,
        ((x >> 16) & 0xff) as u8,
        ((x >> 24) & 0xff) as u8,
    ]
}

/// The 32-bit word read from four little-endian bytes.
pub open spec fn word_of_le(b: Seq<u8>) -> u32
    recommends
        b.len() == 4,
{
    (b[0] as u32) | ((b[1] as u32) << 8) | ((b[2] as u32) << 16) | ((b[3] as u32) << 24)
}

/// A word sequence laid out as consecutive little-endian words.
pub open spec fn words_bytes(ws: Seq<u32>) -> Seq<u8>
    decreases ws.len(),
{
    if ws.len() == 0 {
        Seq::empty()
    } else {
        words_bytes(ws.drop_last()) + le_bytes(ws.last())
    }
}

/// Word `k` of a byte buffer, read little-endian.
pub open spec fn word_at(b: Seq<u8>, k: int) -> u32 {
    word_of_le(b.subrange(4 * k, 4 * k + 4))
}

/// The words of one sphere record: position, radius, material index, and
/// three zero padding words.
pub open spec fn sphere_words(s: Sphere) -> Seq<u32> {
    seq![
        s.position@[0],
        s.position@[1],
        s.position@[2],
        s.radius,
        s.material_index,
        0u32,
        0u32,
        0u32,
    ]
}

/// The words of one material record: color, metallic and roughness,
/// emission, and three zero padding words.
pub open spec fn material_words(m: Material) -> Seq<u32> {
    seq![
        m.base_color@[0],
        m.base_color@[1],
        m.base_color@[2],
        m.base_color@[3],
        m.metallic_roughness@[0],
        m.metallic_roughness@[1],
        m.emission@[0],
        m.emission@[1],
        m.emission@[2],
        0u32,
        0u32,
        0u32,
    ]
}

/// The words of a whole sphere batch, record after record.
pub open spec fn spheres_words(ss: Seq<Sphere>) -> Seq<u32>
    decreases ss.len(),
{
    if ss.len() == 0 {
        Seq::empty()
    } else {
        spheres_words(ss.drop_last()) + sphere_words(ss.last())
    }
}

/// The words of a whole material batch, record after record.
pub open spec fn materials_words(ms: Seq<Material>) -> Seq<u32>
    decreases ms.len(),
{
    if ms.len() == 0 {
        Seq::empty()
    } else {
        materials_words(ms.drop_last()) + material_words(ms.last())
    }
}

/// The exact bytes of an uploaded sphere batch.
pub open spec fn spheres_bytes(ss: Seq<Sphere>) -> Seq<u8> {
    words_bytes(spheres_words(ss))
}

/// The exact bytes of an uploaded material batch.
pub open spec fn materials_bytes(ms: Seq<Material>) -> Seq<u8> {
    words_bytes(materials_words(ms))
}

/// The words of the per-frame camera uniform: the view-projection matrix
/// followed by a homogeneous position (w fixed at one).
pub open spec fn camera_uniform_words(vp: Seq<u32>, pos: Seq<u32>) -> Seq<u32> {
    vp + pos + seq![ONE_F32_BITS]
}

/// The exact bytes of the per-frame camera uniform.
pub open spec fn camera_uniform_bytes(vp: Seq<u32>, pos: Seq<u32>) -> Seq<u8> {
    words_bytes(camera_uniform_words(vp, pos))
}

/// The exact bytes of the per-frame light uniform: a homogeneous position.
pub open spec fn light_uniform_bytes(pos: Seq<u32>) -> Seq<u8> {
    words_bytes(pos + seq![ONE_F32_BITS])
}

/// Reading back the four bytes of a word yields the word.
pub proof fn lemma_word_le_roundtrip(x: u32)
    ensures
        word_of_le(le_bytes(x)) == x,
{
    assert((((x & 0xff) as u8) as u32) | ((((x >> 8) & 0xff) as u8) as u32) << 8 | ((((x
        >> 16) & 0xff) as u8) as u32) << 16 | ((((x >> 24) & 0xff) as u8) as u32) << 24
        == x) by (bit_vector);
}

/// A word sequence encodes to four bytes per word.
pub proof fn lemma_words_bytes_len(ws: Seq<u32>)
    ensures
        words_bytes(ws).len() == 4 * ws.len(),
    decreases ws.len(),
{
    if ws.len() > 0 {
        lemma_words_bytes_len(ws.drop_last());
    }
}

/// The bytes of word `k` sit at byte offset `4 * k`.
pub proof fn lemma_words_bytes_at(ws: Seq<u32>, k: int)
    requires
        0 <= k < ws.len(),
    ensures
        words_bytes(ws).subrange(4 * k, 4 * k + 4) == le_bytes(ws[k]),
    decreases ws.len(),
{
    lemma_words_bytes_len(ws.drop_last());
    if k == ws.len() - 1 {
        assert(words_bytes(ws).subrange(4 * k, 4 * k + 4) =~= le_bytes(ws.last()));
    } else {
        lemma_words_bytes_at(ws.drop_last(), k);
        assert(words_bytes(ws).subrange(4 * k, 4 * k + 4) =~= words_bytes(
            ws.drop_last(),
        ).subrange(4 * k, 4 * k + 4));
    }
}

/// Reading word `k` back from an encoded word sequence yields word `k`.
pub proof fn lemma_word_at_roundtrip(ws: Seq<u32>, k: int)
    requires
        0 <= k < ws.len(),
    ensures
        word_at(words_bytes(ws), k) == ws[k],
{
    lemma_words_bytes_at(ws, k);
    lemma_word_le_roundtrip(ws[k]);
}

/// Appending one word to a prefix appends its four bytes.
proof fn lemma_words_bytes_take_snoc(ws: Seq<u32>, k: int)
    requires
        0 <= k < ws.len(),
    ensures
        words_bytes(ws.take(k + 1)) == words_bytes(ws.take(k)) + le_bytes(ws[k]),
{
    assert(ws.take(k + 1).drop_last() =~= ws.take(k));
    assert(ws.take(k + 1).last() == ws[k]);
}

/// A sphere batch flattens to eight words per record.
pub proof fn lemma_spheres_words_len(ss: Seq<Sphere>)
    ensures
        spheres_words(ss).len() == 8 * ss.len(),
    decreases ss.len(),
{
    if ss.len() > 0 {
        lemma_spheres_words_len(ss.drop_last());
    }
}

/// The words of record `i` sit at word offset `8 * i` of the flattened
/// batch.
pub proof fn lemma_spheres_words_at(ss: Seq<Sphere>, i: int)
    requires
        0 <= i < ss.len(),
    ensures
        spheres_words(ss).subrange(8 * i, 8 * i + 8) == sphere_words(ss[i]),
    decreases ss.len(),
{
    lemma_spheres_words_len(ss.drop_last());
    if i == ss.len() - 1 {
        assert(spheres_words(ss).subrange(8 * i, 8 * i + 8) =~= sphere_words(ss.last()));
    } else {
        lemma_spheres_words_at(ss.drop_last(), i);
        assert(spheres_words(ss).subrange(8 * i, 8 * i + 8) =~= spheres_words(
            ss.drop_last(),
        ).subrange(8 * i, 8 * i + 8));
    }
}

/// Law: uploading a batch and reading record `i` back from the byte buffer
/// yields exactly the fields that were uploaded — the stride, the byte
/// order and the padding lose nothing. The buffer holds the batch at 32
/// bytes per record.
pub proof fn lemma_upload_readback(ss: Seq<Sphere>, i: int)
    requires
        0 <= i < ss.len(),
    ensures
        spheres_bytes(ss).len() == 32 * ss.len(),
        word_at(spheres_bytes(ss), 8 * i + 0) == ss[i].position@[0],
        word_at(spheres_bytes(ss), 8 * i + 1) == ss[i].position@[1],
        word_at(spheres_bytes(ss), 8 * i + 2) == ss[i].position@[2],
        word_at(spheres_bytes(ss), 8 * i + 3) == ss[i].radius,
        word_at(spheres_bytes(ss), 8 * i + 4) == ss[i].material_index,
        word_at(spheres_bytes(ss), 8 * i + 5) == 0,
        word_at(spheres_bytes(ss), 8 * i + 6) == 0,
        word_at(spheres_bytes(ss), 8 * i + 7) == 0,
{
    lemma_spheres_words_len(ss);
    lemma_words_bytes_len(spheres_words(ss));
    lemma_spheres_words_at(ss, i);
    let ws = spheres_words(ss);
    lemma_word_at_roundtrip(ws, 8 * i + 0);
    lemma_word_at_roundtrip(ws, 8 * i + 1);
    lemma_word_at_roundtrip(ws, 8 * i + 2);
    lemma_word_at_roundtrip(ws, 8 * i + 3);
    lemma_word_at_roundtrip(ws, 8 * i + 4);
    lemma_word_at_roundtrip(ws, 8 * i + 5);
    lemma_word_at_roundtrip(ws, 8 * i + 6);
    lemma_word_at_roundtrip(ws, 8 * i + 7);
    assert(ws.subrange(8 * i, 8 * i + 8)[0] == ws[8 * i + 0]);
    assert(ws.subrange(8 * i, 8 * i + 8)[1] == ws[8 * i + 1]);
    assert(ws.subrange(8 * i, 8 * i + 8)[2] == ws[8 * i + 2]);
    assert(ws.subrange(8 * i, 8 * i + 8)[3] == ws[8 * i + 3]);
    assert(ws.subrange(8 * i, 8 * i + 8)[4] == ws[8 * i + 4]);
    assert(ws.subrange(8 * i, 8 * i + 8)[5] == ws[8 * i + 5]);
    assert(ws.subrange(8 * i, 8 * i + 8)[6] == ws[8 * i + 6]);
    assert(ws.subrange(8 * i, 8 * i + 8)[7] == ws[8 * i + 7]);
}

/// Appends the four little-endian bytes of one word.
pub fn push_word_le(out: &mut Vec<u8>, x: u32)
    ensures
        final(out)@ == old(out)@ + le_bytes(x),
{
    proof {
        assert(x & 0xff < 256 && (x >> 8) & 0xff < 256 && (x >> 16) & 0xff < 256 && (x >> 24)
            & 0xff < 256) by (bit_vector);
    }
    out.push((x & 0xff) as u8);
    out.push(((x >> 8) & 0xff) as u8);
    out.push(((x >> 16) & 0xff) as u8);
    out.push(((x >> 24) & 0xff) as u8);
    assert(final(out)@ =~= old(out)@ + le_bytes(x));
}

/// Encodes a word sequence as consecutive little-endian words.
pub fn words_to_bytes(ws: &Vec<u32>) -> (r: Vec<u8>)
    ensures
        r@ == words_bytes(ws@),
        r@.len() == 4 * ws@.len(),
{
    let mut out: Vec<u8> = Vec::new();
    let mut k: usize = 0;
    while k < ws.len()
        invariant
            k <= ws@.len(),
            out@ == words_bytes(ws@.take(k as int)),
        decreases ws@.len() - k,
    {
        proof {
            lemma_words_bytes_take_snoc(ws@, k as int);
        }
        push_word_le(&mut out, ws[k]);
        k = k + 1;
    }
    assert(ws@.take(ws@.len() as int) =~= ws@);
    proof {
        lemma_words_bytes_len(ws@);
    }
    out
}

/// Reads one little-endian word at byte offset `off`.
pub fn read_word_le(bytes: &Vec<u8>, off: usize) -> (r: u32)
    requires
        off + 4 <= bytes@.len(),
    ensures
        r == word_of_le(bytes@.subrange(off as int, off as int + 4)),
{
    let n = bytes.len();
    assert(off + 4 <= n);
    let r = (bytes[off] as u32) | ((bytes[off + 1] as u32) << 8u32) | ((bytes[off + 2] as u32)
        << 16u32) | ((bytes[off + 3] as u32) << 24u32);
    proof {
        let b = bytes@.subrange(off as int, off as int + 4);
        assert(b[0] == bytes@[off as int] && b[1] == bytes@[off as int + 1] && b[2]
            == bytes@[off as int + 2] && b[3] == bytes@[off as int + 3]);
    }
    r
}

/// Appends the eight words of one sphere record.
fn push_sphere_words(out: &mut Vec<u32>, s: &Sphere)
    ensures
        final(out)@ == old(out)@ + sphere_words(*s),
{
    out.push(s.position[0]);
    out.push(s.position[1]);
    out.push(s.position[2]);
    out.push(s.radius);
    out.push(s.material_index);
    out.push(0);
    out.push(0);
    out.push(0);
    assert(final(out)@ =~= old(out)@ + sphere_words(*s));
}

/// Appends the twelve words of one material record.
fn push_material_words(out: &mut Vec<u32>, m: &Material)
    ensures
        final(out)@ == old(out)@ + material_words(*m),
{
    out.push(m.base_color[0]);
    out.push(m.base_color[1]);
    out.push(m.base_color[2]);
    out.push(m.base_color[3]);
    out.push(m.metallic_roughness[0]);
    out.push(m.metallic_roughness[1]);
    out.push(m.emission[0]);
    out.push(m.emission[1]);
    out.push(m.emission[2]);
    out.push(0);
    out.push(0);
    out.push(0);
    assert(final(out)@ =~= old(out)@ + material_words(*m));
}

/// Encodes a whole sphere batch, record after record, 32 bytes each.
pub fn encode_spheres(ss: &Vec<Sphere>) -> (r: Vec<u8>)
    ensures
        r@ == spheres_bytes(ss@),
        r@.len() == 32 * ss@.len(),
{
    let mut words: Vec<u32> = Vec::new();
    let mut i: usize = 0;
    while i < ss.len()
        invariant
            i <= ss@.len(),
            words@ == spheres_words(ss@.take(i as int)),
        decreases ss@.len() - i,
    {
        proof {
            assert(ss@.take(i as int + 1).drop_last() =~= ss@.take(i as int));
        }
        push_sphere_words(&mut words, &ss[i]);
        i = i + 1;
    }
    assert(ss@.take(ss@.len() as int) =~= ss@);
    proof {
        lemma_spheres_words_len(ss@);
    }
    words_to_bytes(&words)
}

/// Encodes a whole material batch, record after record, 48 bytes each.
pub fn encode_materials(ms: &Vec<Material>) -> (r: Vec<u8>)
    ensures
        r@ == materials_bytes(ms@),
        r@.len() == 48 * ms@.len(),
{
    let mut words: Vec<u32> = Vec::new();
    let mut i: usize = 0;
    while i < ms.len()
        invariant
            i <= ms@.len(),
            words@ == materials_words(ms@.take(i as int)),
        decreases ms@.len() - i,
    {
        proof {
            assert(ms@.take(i as int + 1).drop_last() =~= ms@.take(i as int));
        }
        push_material_words(&mut words, &ms[i]);
        i = i + 1;
    }
    assert(ms@.take(ms@.len() as int) =~= ms@);
    proof {
        lemma_materials_words_len(ms@);
    }
    words_to_bytes(&words)
}

/// A material batch flattens to twelve words per record.
pub proof fn lemma_materials_words_len(ms: Seq<Material>)
    ensures
        materials_words(ms).len() == 12 * ms.len(),
    decreases ms.len(),
{
    if ms.len() > 0 {
        lemma_materials_words_len(ms.drop_last());
    }
}

/// Decodes record `i` of an encoded sphere buffer.
pub fn decode_sphere(bytes: &Vec<u8>, i: usize) -> (s: Sphere)
    requires
        32 * (i as int) + 32 <= bytes@.len(),
    ensures
        s.position@[0] == word_at(bytes@, 8 * (i as int) + 0),
        s.position@[1] == word_at(bytes@, 8 * (i as int) + 1),
        s.position@[2] == word_at(bytes@, 8 * (i as int) + 2),
        s.radius == word_at(bytes@, 8 * (i as int) + 3),
        s.material_index == word_at(bytes@, 8 * (i as int) + 4),
{
    let n = bytes.len();
    assert(32 * (i as int) + 32 <= n);
    let base: usize = 32 * i;
    let s = Sphere {
        position: [
            read_word_le(bytes, base),
            read_word_le(bytes, base + 4),
            read_word_le(bytes, base + 8),
        ],
        radius: read_word_le(bytes, base + 12),
        material_index: read_word_le(bytes, base + 16),
    };
    s
}

/// Whether a sphere's material reference is below the table capacity.
pub fn validate_sphere(s: &Sphere, material_count: u64) -> (r: bool)
    ensures
        r == sphere_valid(*s, material_count),
{
    (s.material_index as u64) < material_count
}

/// Whether every sphere of a batch references a material below the table
/// capacity.
pub fn validate_spheres(ss: &Vec<Sphere>, material_count: u64) -> (r: bool)
    ensures
        r <==> (forall|i: int|
            0 <= i < ss@.len() ==> sphere_valid(ss@[i], material_count)),
{
    let mut i: usize = 0;
    while i < ss.len()
        invariant
            i <= ss@.len(),
            forall|j: int| 0 <= j < i ==> sphere_valid(ss@[j], material_count),
        decreases ss@.len() - i,
    {
        if !validate_sphere(&ss[i], material_count) {
            return false;
        }
        i = i + 1;
    }
    true
}

/// The bulk upload gate: the exact bytes of the batch when it fits the
/// sphere buffer's fixed capacity, and nothing otherwise.
pub fn sphere_upload_bytes(ss: &Vec<Sphere>) -> (r: Option<Vec<u8>>)
    ensures
        (r is Some) <==> ss@.len() <= SPHERE_CAPACITY,
        r is Some ==> r->Some_0@ == spheres_bytes(ss@),
{
    if (ss.len() as u64) <= SPHERE_CAPACITY {
        Some(encode_spheres(ss))
    } else {
        None
    }
}

/// The material upload gate: the exact bytes of the table when it fits the
/// material buffer's fixed capacity, and nothing otherwise.
pub fn material_upload_bytes(ms: &Vec<Material>) -> (r: Option<Vec<u8>>)
    ensures
        (r is Some) <==> ms@.len() <= MATERIAL_CAPACITY,
        r is Some ==> r->Some_0@ == materials_bytes(ms@),
{
    if (ms.len() as u64) <= MATERIAL_CAPACITY {
        Some(encode_materials(ms))
    } else {
        None
    }
}

/// Packs the per-frame camera uniform: the view-projection matrix followed
/// by the homogeneous position, 80 bytes.
pub fn pack_camera_uniform(vp: [u32; 16], pos: [u32; 3]) -> (r: Vec<u8>)
    ensures
        r@ == camera_uniform_bytes(vp@, pos@),
        r@.len() == CAMERA_UNIFORM_SIZE,
{
    let mut words: Vec<u32> = Vec::new();
    let mut k: usize = 0;
    while k < 16
        invariant
            k <= 16,
            words@ == vp@.take(k as int),
        decreases 16 - k,
    {
        words.push(vp[k]);
        assert(words@ =~= vp@.take(k as int + 1));
        k = k + 1;
    }
    assert(vp@.take(16) =~= vp@);
    words.push(pos[0]);
    words.push(pos[1]);
    words.push(pos[2]);
    words.push(ONE_F32_BITS);
    assert(words@ =~= camera_uniform_words(vp@, pos@));
    proof {
        lemma_words_bytes_len(words@);
    }
    words_to_bytes(&words)
}

/// Packs the per-frame light uniform: the homogeneous light position,
/// 16 bytes.
pub fn pack_light_uniform(pos: [u32; 3]) -> (r: Vec<u8>)
    ensures
        r@ == light_uniform_bytes(pos@),
        r@.len() == LIGHT_UNIFORM_SIZE,
{
    let mut words: Vec<u32> = Vec::new();
    words.push(pos[0]);
    words.push(pos[1]);
    words.push(pos[2]);
    words.push(ONE_F32_BITS);
    assert(words@ =~= pos@ + seq![ONE_F32_BITS]);
    proof {
        lemma_words_bytes_len(words@);
    }
    words_to_bytes(&words)
}

} // verus!
