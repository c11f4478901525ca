use vstd::prelude::*;

verus! {

/// An image read back by the headless front end, as packed 8-bit RGB.
pub struct TracerHeadlessOutput {
    pub width: u32,
    pub height: u32,
    pub rgb888: Vec<u8>,
}

/// The byte of the RGBA data that becomes byte `k` of the RGB data: the alpha
/// byte of every pixel is dropped.
pub open spec fn rgb_source(k: int) -> int {
    4 * (k / 3) + k % 3
}

/// The number of pixels in RGBA data of `len` bytes, where a last pixel may lack its
/// alpha byte.
pub open spec fn pixel_count(len: int) -> int {
    (len + 1) / 4
}

impl TracerHeadlessOutput {
    /// Packs RGBA pixels into RGB by dropping each alpha byte.
    pub fn from_rgba8888(width: u32, height: u32, rgba8888: Vec<u8>) -> (r: Self)
        requires
            rgba8888@.len() % 4 == 0 || rgba8888@.len() % 4 == 3,
        ensures
            r.width == width,
            r.height == height,
            r.rgb888@.len() == 3 * pixel_count(rgba8888@.len() as int),
            forall|k: int| 0 <= k < r.rgb888@.len() ==> #[trigger] r.rgb888@[k] == rgba8888@[rgb_source(k)],
    {
        let len = rgba8888.len();
        let n = len / 4 + if len % 4 == 3 { 1usize } else { 0usize };
        assert(n == pixel_count(rgba8888@.len() as int));
        let mut rgb: Vec<u8> = Vec::new();
        let mut p: usize = 0;
        while p < n
            invariant
                len == rgba8888@.len(),
                n == pixel_count(rgba8888@.len() as int),
                rgba8888@.len() % 4 == 0 || rgba8888@.len() % 4 == 3,
                p <= n,
                rgb@.len() == 3 * p,
                forall|k: int| 0 <= k < rgb@.len() ==> #[trigger] rgb@[k] == rgba8888@[rgb_source(k)],
            decreases n - p,
        {
            assert(4 * p + 3 <= len) by (nonlinear_arith)
                requires
                    p < n,
                    n == (len + 1) / 4,
                    len % 4 == 0 || len % 4 == 3,
            ;
            let base = 4 * p;
            rgb.push(rgba8888[base]);
            rgb.push(rgba8888[base + 1]);
            rgb.push(rgba8888[base + 2]);
            assert forall|k: int| 0 <= k < rgb@.len() implies #[trigger] rgb@[k] == rgba8888@[rgb_source(k)] by {
                if k >= 3 * p {
                    assert(k / 3 == p as int);
                }
            }
            p += 1;
        }
        TracerHeadlessOutput { width, height, rgb888: rgb }
    }
}

} // verus!
