//! Named textures held as RGBA images of the `image` crate, and the lookup
//! of a texel by clamped pixel coordinates.

use image::RgbaImage;
use vstd::prelude::*;
use vstd::string::StringSliceAdditionalSpecFns;
use vstd::utf8::encode_utf8_decode_utf8;

verus! {

/// An RGBA image with eight bits per sample, held by the `image` crate.
/// Verus does not accept a declaration of `image::ImageBuffer` (its own
/// bound is a trait of that crate), so the image sits in a hidden field and
/// is reached through the functions below.
#[verifier::external_body]
pub struct RgbaTexture {
    image: RgbaImage,
}

/// The sample buffer of an RGBA image: row by row, four samples per pixel
/// (the buffer may run on past the last pixel).
pub uninterp spec fn rgba_samples(img: RgbaTexture) -> Seq<u8>;

/// The width of an RGBA image in pixels.
pub uninterp spec fn rgba_width(img: RgbaTexture) -> u32;

/// The height of an RGBA image in pixels.
pub uninterp spec fn rgba_height(img: RgbaTexture) -> u32;

/// Relies on image::ImageBuffer::from_raw, which keeps the buffer, width
/// and height as given when four samples per pixel fit the buffer and
/// returns `None` otherwise.
#[verifier::external_body]
fn image_from_raw(width: u32, height: u32, samples: Vec<u8>) -> (r: Option<RgbaTexture>)
    ensures
        r.is_some() <==> 4 * (width as int) * (height as int) <= samples@.len(),
        r matches Some(t) ==> rgba_width(t) == width && rgba_height(t) == height
            && rgba_samples(t) == samples@,
{
    RgbaImage::from_raw(width, height, samples).map(|image| RgbaTexture { image })
}

/// Relies on image::ImageBuffer::width, which returns the stored width.
#[verifier::external_body]
fn image_width(img: &RgbaTexture) -> (r: u32)
    ensures
        r == rgba_width(*img),
{
    img.image.width()
}

/// Relies on image::ImageBuffer::height, which returns the stored height.
#[verifier::external_body]
fn image_height(img: &RgbaTexture) -> (r: u32)
    ensures
        r == rgba_height(*img),
{
    img.image.height()
}

/// First sample of the pixel at `(x, y)` in a row-major RGBA image.
pub open spec fn pixel_base(img: RgbaTexture, x: u32, y: u32) -> int {
    (y * rgba_width(img) + x) * 4
}

/// Relies on image::ImageBuffer::get_pixel, which panics outside the image
/// and otherwise returns the four samples that start at
/// `(y * width + x) * 4`, slicing them out of the buffer.
#[verifier::external_body]
fn image_pixel(img: &RgbaTexture, x: u32, y: u32) -> (r: [u8; 4])
    requires
        x < rgba_width(*img),
        y < rgba_height(*img),
    ensures
        forall|k: int| 0 <= k < 4 ==> r@[k] == rgba_samples(*img)[pixel_base(*img, x, y) + k],
{
    img.image.get_pixel(x, y).0
}

/// The red, green and blue samples of a texel.
#[derive(Clone, Copy, Debug, PartialEq, Eq, Structural)]
pub struct Texel {
    pub r: u8,
    pub g: u8,
    pub b: u8,
}

/// The texel reported for a texture that is not there (magenta).
pub open spec fn missing_texel() -> Texel {
    Texel { r: 255, g: 0, b: 255 }
}

/// The texel of `img` at `(x, y)` with both coordinates clamped to the last
/// column and row; the missing texel for an image without pixels.
pub open spec fn clamped_texel(img: RgbaTexture, x: u32, y: u32) -> Texel {
    let w = rgba_width(img);
    let h = rgba_height(img);
    if w == 0 || h == 0 {
        missing_texel()
    } else {
        let cx: u32 = if x < w { x } else { (w - 1) as u32 };
        let cy: u32 = if y < h { y } else { (h - 1) as u32 };
        let base = pixel_base(img, cx, cy);
        let s = rgba_samples(img);
        Texel { r: s[base], g: s[base + 1], b: s[base + 2] }
    }
}

impl RgbaTexture {
    /// An image of `width` by `height` pixels from its samples, row by row,
    /// four per pixel; `None` when the samples are too few.
    pub fn from_raw(width: u32, height: u32, samples: Vec<u8>) -> (r: Option<RgbaTexture>)
        ensures
            r.is_some() <==> 4 * (width as int) * (height as int) <= samples@.len(),
            r matches Some(t) ==> rgba_width(t) == width && rgba_height(t) == height
                && rgba_samples(t) == samples@,
    {
        image_from_raw(width, height, samples)
    }

    pub fn width(&self) -> (r: u32)
        ensures
            r == rgba_width(*self),
    {
        image_width(self)
    }

    pub fn height(&self) -> (r: u32)
        ensures
            r == rgba_height(*self),
    {
        image_height(self)
    }
}

/// A texture and the name it is looked up by.
pub struct Texture {
    id: String,
    image: RgbaTexture,
}

/// Textures by name; a name is bound to at most one texture.
pub struct TextureManager {
    textures: Vec<Texture>,
}

/// Whether two strings hold the same characters, by comparing their bytes.
fn same_id(a: &str, b: &str) -> (r: bool)
    ensures
        r == (a@ == b@),
{
    let ab = a.as_bytes();
    let bb = b.as_bytes();
    if ab.len() != bb.len() {
        return false;
    }
    let mut i: usize = 0;
    while i < ab.len()
        invariant
            ab@ == a.spec_bytes(),
            bb@ == b.spec_bytes(),
            ab@.len() == bb@.len(),
            i <= ab@.len(),
            forall|j: int| 0 <= j < i ==> ab@[j] == bb@[j],
        decreases ab@.len() - i,
    {
        if ab[i] != bb[i] {
            return false;
        }
        i = i + 1;
    }
    proof {
        assert(ab@ =~= bb@);
        encode_utf8_decode_utf8(a@);
        encode_utf8_decode_utf8(b@);
    }
    true
}

impl TextureManager {
    /// The names are pairwise distinct.
    pub closed spec fn wf(&self) -> bool {
        forall|i: int, j: int|
            0 <= i < j < self.textures@.len() ==> self.textures@[i].id@ != self.textures@[j].id@
    }

    /// Whether a texture is bound to `id`.
    pub closed spec fn has(&self, id: Seq<char>) -> bool {
        exists|i: int| 0 <= i < self.textures@.len() && self.textures@[i].id@ == id
    }

    /// The texture bound to `id`, if any.
    pub closed spec fn texture(&self, id: Seq<char>) -> Option<RgbaTexture> {
        if self.has(id) {
            let i = choose|i: int| 0 <= i < self.textures@.len() && self.textures@[i].id@ == id;
            Some(self.textures@[i].image)
        } else {
            None
        }
    }

    pub fn new() -> (r: TextureManager)
        ensures
            r.wf(),
            forall|id: Seq<char>| r.texture(id) == None::<RgbaTexture>,
    {
        TextureManager { textures: Vec::new() }
    }

    /// Position of the texture named `id`.
    fn find(&self, id: &str) -> (r: Option<usize>)
        requires
            self.wf(),
        ensures
            match r {
                None => !self.has(id@),
                Some(i) => i < self.textures@.len() && self.textures@[i as int].id@ == id@,
            },
    {
        let mut i: usize = 0;
        while i < self.textures.len()
            invariant
                i <= self.textures@.len(),
                forall|j: int| 0 <= j < i ==> self.textures@[j].id@ != id@,
            decreases self.textures@.len() - i,
        {
            if same_id(self.textures[i].id.as_str(), id) {
                return Some(i);
            }
            i = i + 1;
        }
        None
    }


    /// The texture at position `i` is the one bound to its name.
    proof fn lemma_texture_at(&self, i: int)
        requires
            self.wf(),
            0 <= i < self.textures@.len(),
        ensures
            self.texture(self.textures@[i].id@) == Some(self.textures@[i].image),
    {
        let k = self.textures@[i].id@;
        assert(self.has(k));
        let c = choose|c: int| 0 <= c < self.textures@.len() && self.textures@[c].id@ == k;
        if c < i {
            assert(self.textures@[c].id@ != self.textures@[i].id@);
        } else if c > i {
            assert(self.textures@[i].id@ != self.textures@[c].id@);
        }
    }

    /// Binds `id` to `texture`, replacing the texture bound to it before.
    pub fn insert_texture(&mut self, id: &str, texture: RgbaTexture)
        requires
            old(self).wf(),
        ensures
            final(self).wf(),
            final(self).texture(id@) == Some(texture),
            forall|k: Seq<char>| k != id@ ==> final(self).texture(k) == old(self).texture(k),
    {
        let entry = Texture { id: id.to_string(), image: texture };
        proof {
            broadcast use vstd::string::to_string_from_display_ensures_for_str;
        }
        let ghost before = *self;
        match self.find(id) {
            Some(i) => {
                self.textures[i] = entry;
                assert(self.textures@ == before.textures@.update(i as int, entry));
                proof {
                    assert forall|a: int, b: int|
                        0 <= a < b < self.textures@.len() implies self.textures@[a].id@
                        != self.textures@[b].id@ by {
                        if a != i && b != i {
                            assert(before.textures@[a].id@ != before.textures@[b].id@);
                        } else if a == i {
                            assert(before.textures@[a].id@ != before.textures@[b].id@);
                        } else {
                            assert(before.textures@[a].id@ != before.textures@[b].id@);
                        }
                    }
                    self.lemma_texture_at(i as int);
                }
            },
            None => {
                self.textures.push(entry);
                proof {
                    assert forall|a: int, b: int|
                        0 <= a < b < self.textures@.len() implies self.textures@[a].id@
                        != self.textures@[b].id@ by {
                        if b < before.textures@.len() {
                            assert(before.textures@[a].id@ != before.textures@[b].id@);
                        } else {
                            assert(!before.has(id@));
                            assert(self.textures@[a] == before.textures@[a]);
                        }
                    }
                    self.lemma_texture_at(before.textures@.len() as int);
                }
            },
        }
        proof {
            assert forall|k: Seq<char>| k != id@ implies self.texture(k) == before.texture(k) by {
                if before.has(k) {
                    let c = choose|c: int|
                        0 <= c < before.textures@.len() && before.textures@[c].id@ == k;
                    before.lemma_texture_at(c);
                    assert(self.textures@[c] == before.textures@[c]);
                    self.lemma_texture_at(c);
                } else if self.has(k) {
                    let c = choose|c: int|
                        0 <= c < self.textures@.len() && self.textures@[c].id@ == k;
                    if c < before.textures@.len() {
                        assert(self.textures@[c].id@ == before.textures@[c].id@);
                    }
                }
            }
        }
    }

    /// Width and height of the texture bound to `id`.
    pub fn texture_size(&self, id: &str) -> (r: Option<(u32, u32)>)
        requires
            self.wf(),
        ensures
            r == (match self.texture(id@) {
                None => None,
                Some(t) => Some((rgba_width(t), rgba_height(t))),
            }),
    {
        match self.find(id) {
            None => None,
            Some(i) => {
                proof {
                    self.lemma_texture_at(i as int);
                }
                let t = &self.textures[i].image;
                Some((image_width(t), image_height(t)))
            },
        }
    }

    /// The texel at `(x, y)` of the texture bound to `id`, each coordinate
    /// clamped to the last column or row; the missing texel when no texture
    /// is bound to `id` or it has no pixels.
    pub fn sample_texture(&self, id: &str, x: u32, y: u32) -> (r: Texel)
        requires
            self.wf(),
        ensures
            r == (match self.texture(id@) {
                None => missing_texel(),
                Some(t) => clamped_texel(t, x, y),
            }),
    {
        match self.find(id) {
            None => Texel { r: 255, g: 0, b: 255 },
            Some(i) => {
                proof {
                    self.lemma_texture_at(i as int);
                }
                let t = &self.textures[i].image;
                let w = image_width(t);
                let h = image_height(t);
                if w == 0 || h == 0 {
                    return Texel { r: 255, g: 0, b: 255 };
                }
                let cx: u32 = if x < w { x } else { w - 1 };
                let cy: u32 = if y < h { y } else { h - 1 };
                let p = image_pixel(t, cx, cy);
                Texel { r: p[0], g: p[1], b: p[2] }
            },
        }
    }
}

} // verus!
