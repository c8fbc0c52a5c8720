//! Texture images and their flattening into one GPU data buffer.
use vstd::prelude::*;

verus! {

/// RGBA texture image: `width * height` pixels packed as one `u32` each
/// (red in bits 0-7, green 8-15, blue 16-23, alpha 24-31).
#[derive(Clone, Debug)]
pub struct TextureData {
    pub width: u32,
    pub height: u32,
    pub rgba_data: Vec<u32>,
}

impl TextureData {
    /// Creates a texture; the length of `rgba_data` is not checked against the size.
    pub fn new(width: u32, height: u32, rgba_data: Vec<u32>) -> (r: Self)
        ensures
            r.width == width,
            r.height == height,
            r.rgba_data@ == rgba_data@,
    {
        TextureData { width, height, rgba_data }
    }
}

/// Where a texture starts in the flattened texture buffer, and its size.
#[derive(Clone, Copy, Debug, PartialEq, Eq, Structural)]
pub struct TextureInfo {
    /// Offset, in bytes, of the texture's first pixel in the flattened buffer (each
    /// pixel takes four bytes).
    pub offset: u32,
    pub width: u32,
    pub height: u32,
    pub _pad: u32,
}

/// Number of pixels that a texture's size announces.
pub open spec fn announced_pixels(t: TextureData) -> int {
    t.width * t.height
}

/// Sum of the announced pixel counts of the first `i` textures of `s`.
pub open spec fn pixels_before(s: Seq<TextureData>, i: int) -> int
    decreases i,
{
    if i <= 0 {
        0
    } else {
        pixels_before(s, i - 1) + announced_pixels(s[i - 1])
    }
}

/// The pixel data of all textures of `s`, one after the other.
pub open spec fn flattened(s: Seq<TextureData>) -> Seq<u32>
    decreases s.len(),
{
    if s.len() == 0 {
        Seq::empty()
    } else {
        flattened(s.drop_last()) + s.last().rgba_data@
    }
}

/// Bytes taken by one packed RGBA pixel.
pub const BYTES_PER_PIXEL: u32 = 4;

/// Byte offset of texture `i` of `s` in the flattened buffer.
pub open spec fn bytes_before(s: Seq<TextureData>, i: int) -> int {
    BYTES_PER_PIXEL * pixels_before(s, i)
}

/// The texture info that `process_textures` records for texture `i` of `s`.
pub open spec fn info_for(s: Seq<TextureData>, i: int) -> TextureInfo {
    TextureInfo {
        offset: bytes_before(s, i) as u32,
        width: s[i].width,
        height: s[i].height,
        _pad: 0,
    }
}

/// Every texture holds exactly as many pixels as its size announces.
pub open spec fn well_sized(s: Seq<TextureData>) -> bool {
    forall|i: int| 0 <= i < s.len() ==> (#[trigger] s[i]).rgba_data@.len() == announced_pixels(s[i])
}

proof fn lemma_pixels_before_monotone(s: Seq<TextureData>, i: int, j: int)
    requires
        0 <= i <= j <= s.len(),
    ensures
        pixels_before(s, i) <= pixels_before(s, j),
    decreases j - i,
{
    if i < j {
        lemma_pixels_before_monotone(s, i, j - 1);
        let t = s[j - 1];
        assert(t.width * t.height >= 0) by (nonlinear_arith);
    }
}

proof fn lemma_pixels_before_prefix(s: Seq<TextureData>, n: int, i: int)
    requires
        0 <= i <= n <= s.len(),
    ensures
        pixels_before(s.subrange(0, n), i) == pixels_before(s, i),
    decreases i,
{
    if i > 0 {
        lemma_pixels_before_prefix(s, n, i - 1);
    }
}

/// Flattens `textures` into one pixel buffer and records, for each texture, where
/// its pixels start (in bytes) together with its size.
pub fn process_textures(textures: &[TextureData]) -> (r: (Vec<u32>, Vec<TextureInfo>))
    requires
        bytes_before(textures@, textures@.len() as int) <= u32::MAX,
    ensures
        r.0@ == flattened(textures@),
        r.1@.len() == textures@.len(),
        forall|i: int| 0 <= i < textures@.len() ==> #[trigger] r.1@[i] == info_for(textures@, i),
{
    let mut data: Vec<u32> = Vec::new();
    let mut info: Vec<TextureInfo> = Vec::new();
    let mut offset: u32 = 0;
    let n = textures.len();
    let mut k: usize = 0;
    while k < n
        invariant
            n == textures@.len(),
            k <= n,
            bytes_before(textures@, n as int) <= u32::MAX,
            offset as int == bytes_before(textures@, k as int),
            data@ == flattened(textures@.subrange(0, k as int)),
            info@.len() == k,
            forall|i: int| 0 <= i < k ==> #[trigger] info@[i] == info_for(textures@, i),
        decreases n - k,
    {
        let tex = &textures[k];
        info.push(TextureInfo { offset, width: tex.width, height: tex.height, _pad: 0 });
        let ghost before = data@;
        let m = tex.rgba_data.len();
        let mut j: usize = 0;
        while j < m
            invariant
                m == tex.rgba_data@.len(),
                j <= m,
                data@ == before + tex.rgba_data@.subrange(0, j as int),
            decreases m - j,
        {
            data.push(tex.rgba_data[j]);
            j = j + 1;
        }
        proof {
            assert(tex.rgba_data@.subrange(0, m as int) =~= tex.rgba_data@);
            let p = textures@.subrange(0, k + 1);
            assert(p.drop_last() =~= textures@.subrange(0, k as int));
            assert(p.last() == textures@[k as int]);
            lemma_pixels_before_monotone(textures@, k + 1, n as int);
            let w = tex.width;
            let h = tex.height;
            assert(w * h >= 0) by (nonlinear_arith);
            assert(bytes_before(textures@, k + 1) == offset + 4 * (w * h));
            assert(bytes_before(textures@, k + 1) <= bytes_before(textures@, n as int));
        }
        offset = offset + BYTES_PER_PIXEL * (tex.width * tex.height);
        k = k + 1;
    }
    proof {
        assert(textures@.subrange(0, n as int) =~= textures@);
    }
    (data, info)
}

proof fn lemma_flattened_len(s: Seq<TextureData>)
    requires
        well_sized(s),
    ensures
        flattened(s).len() == pixels_before(s, s.len() as int),
    decreases s.len(),
{
    if s.len() > 0 {
        let p = s.drop_last();
        assert(well_sized(p)) by {
            assert forall|i: int| 0 <= i < p.len() implies (#[trigger] p[i]).rgba_data@.len()
                == announced_pixels(p[i]) by {
                assert(p[i] == s[i]);
            }
        }
        lemma_flattened_len(p);
        lemma_pixels_before_prefix(s, p.len() as int, p.len() as int);
        assert(s[s.len() - 1] == s.last());
    }
}

/// For textures whose data matches their size, the pixels of texture `i` sit in the
/// flattened buffer exactly at the byte offset recorded for it: from element
/// `offset / 4` on.
pub proof fn lemma_texture_at_recorded_offset(s: Seq<TextureData>, i: int)
    requires
        well_sized(s),
        0 <= i < s.len(),
        bytes_before(s, s.len() as int) <= u32::MAX,
    ensures
        info_for(s, i).offset == 4 * pixels_before(s, i),
        pixels_before(s, i + 1) == pixels_before(s, i) + s[i].rgba_data@.len(),
        flattened(s).subrange(pixels_before(s, i), pixels_before(s, i + 1)) == s[i].rgba_data@,
{
    lemma_pixels_before_monotone(s, i, s.len() as int);
    lemma_pixels_before_monotone(s, 0, i);
    lemma_texture_pixels_at(s, i);
}

proof fn lemma_texture_pixels_at(s: Seq<TextureData>, i: int)
    requires
        well_sized(s),
        0 <= i < s.len(),
    ensures
        pixels_before(s, i + 1) == pixels_before(s, i) + s[i].rgba_data@.len(),
        flattened(s).subrange(pixels_before(s, i), pixels_before(s, i + 1)) == s[i].rgba_data@,
    decreases s.len(),
{
    let p = s.drop_last();
    assert(well_sized(p)) by {
        assert forall|j: int| 0 <= j < p.len() implies (#[trigger] p[j]).rgba_data@.len()
            == announced_pixels(p[j]) by {
            assert(p[j] == s[j]);
        }
    }
    lemma_flattened_len(p);
    lemma_pixels_before_prefix(s, p.len() as int, p.len() as int);
    if i == s.len() - 1 {
        assert(flattened(s) == flattened(p) + s.last().rgba_data@);
        assert(flattened(s).subrange(pixels_before(s, i), pixels_before(s, i + 1))
            =~= s[i].rgba_data@);
    } else {
        lemma_texture_pixels_at(p, i);
        lemma_pixels_before_prefix(s, p.len() as int, i);
        lemma_pixels_before_prefix(s, p.len() as int, i + 1);
        lemma_pixels_before_monotone(p, i + 1, p.len() as int);
        lemma_pixels_before_monotone(p, i, i + 1);
        lemma_pixels_before_monotone(p, 0, i);
        assert(p =~= s.subrange(0, p.len() as int));
        assert(p[i] == s[i]);
        assert(flattened(s) == flattened(p) + s.last().rgba_data@);
        assert(pixels_before(p, i + 1) <= flattened(p).len());
        assert(flattened(s).subrange(pixels_before(s, i), pixels_before(s, i + 1))
            =~= flattened(p).subrange(pixels_before(p, i), pixels_before(p, i + 1)));
    }
}

} // verus!
