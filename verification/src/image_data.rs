use vstd::prelude::*;

verus! {

/// Mathematical model of an image: its dimensions together with its RGBA
/// bytes, row-major, four bytes per pixel.
#[verifier::ext_equal]
pub ghost struct ImageView {
    pub width: u32,
    pub height: u32,
    pub pixels: Seq<u8>,
}

impl ImageView {
    /// The pixel buffer holds exactly four bytes for every pixel.
    pub open spec fn wf(self) -> bool {
        self.pixels.len() == 4 * (self.width as int) * (self.height as int)
    }

    /// Channel `c` of the pixel at column `x`, row `y`: the bytes are
    /// row-major, four per pixel, alpha in channel 3.
    pub open spec fn chan(self, x: int, y: int, c: int) -> u8 {
        self.pixels[4 * (y * self.width + x) + c]
    }
}

/// An immutable RGBA bitmap: the value the editor holds and snapshots.
#[derive(Clone, Debug)]
pub struct Image {
    pub(crate) width: u32,
    pub(crate) height: u32,
    pub(crate) pixels: Vec<u8>,
}

impl View for Image {
    type V = ImageView;

    closed spec fn view(&self) -> ImageView {
        ImageView { width: self.width, height: self.height, pixels: self.pixels@ }
    }
}

impl Image {
    /// Wraps raw RGBA bytes as an image when the buffer length matches the
    /// dimensions, and rejects every other buffer.
    pub fn try_new(width: u32, height: u32, pixels: Vec<u8>) -> (r: Option<Image>)
        ensures
            match r {
                Some(img) => {
                    &&& img@ == (ImageView { width, height, pixels: pixels@ })
                    &&& img@.wf()
                },
                None => !(ImageView { width, height, pixels: pixels@ }).wf(),
            },
    {
        let ghost w: int = width as int;
        let ghost h: int = height as int;
        proof {
            assert(w * h <= 0xffff_ffff * 0xffff_ffff) by (nonlinear_arith)
                requires 0 <= w <= 0xffff_ffff && 0 <= h <= 0xffff_ffff;
        }
        let area: u64 = (width as u64) * (height as u64);
        let n: usize = pixels.len();
        proof {
            assert(4 * w * h == 4 * (w * h)) by (nonlinear_arith);
            assert(area == w * h);
            assert(n <= usize::MAX && usize::MAX <= u64::MAX);
        }
        if area <= u64::MAX / 4 && (n as u64) == 4 * area {
            Some(Image { width, height, pixels })
        } else {
            None
        }
    }

    pub fn width(&self) -> (w: u32)
        ensures
            w == self@.width,
    {
        self.width
    }

    pub fn height(&self) -> (h: u32)
        ensures
            h == self@.height,
    {
        self.height
    }

    pub fn pixels(&self) -> (r: &Vec<u8>)
        ensures
            r@ == self@.pixels,
    {
        &self.pixels
    }
}

/// Bytewise comparison of two buffers.
fn bytes_equal(a: &Vec<u8>, b: &Vec<u8>) -> (r: bool)
    ensures
        r == (a@ == b@),
{
    if a.len() != b.len() {
        return false;
    }
    let mut i: usize = 0;
    while i < a.len()
        invariant
            i <= a@.len(),
            a@.len() == b@.len(),
            forall|j: int| 0 <= j < i ==> a@[j] == b@[j],
        decreases a@.len() - i,
    {
        if a[i] != b[i] {
            return false;
        }
        i += 1;
    }
    proof {
        assert(a@ =~= b@);
    }
    true
}

impl PartialEq for Image {
    /// Two images are equal when their dimensions and every byte agree.
    fn eq(&self, other: &Image) -> (r: bool) {
        let r = self.width == other.width && self.height == other.height
            && bytes_equal(&self.pixels, &other.pixels);
        proof {
            if r {
                assert(self@ =~= other@);
            }
        }
        r
    }
}

impl vstd::std_specs::cmp::PartialEqSpecImpl for Image {
    open spec fn obeys_eq_spec() -> bool {
        true
    }

    open spec fn eq_spec(&self, other: &Image) -> bool {
        self@ == other@
    }
}

impl Eq for Image {
}

} // verus!
