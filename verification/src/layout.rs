//! Plane layout arithmetic: derives, from the frame dimensions, the pixel,
//! word and byte counts and the row strides of the Y plane and of the UV
//! plane of the NV12 output, and the word strides of the YUY2 input that the
//! two compute programs read.

use vstd::prelude::*;

verus! {

/// Frame dimensions from which every buffer size and stride of one
/// conversion session is derived.
///
/// The arithmetic is defined for positive, even dimensions: YUY2 packs two
/// horizontal pixels into one 32-bit word, and the UV plane halves both axes.
#[derive(Debug, Clone, Copy, PartialEq, Eq, Structural)]
pub struct Nv12SizeInfo {
    pub width: usize,
    pub height: usize,
}

impl Nv12SizeInfo {
    /// Dimensions the layout arithmetic is stated for: positive, even, and
    /// small enough that the packed YUY2 frame (two bytes per pixel) has a
    /// byte count that fits in `usize`.
    pub open spec fn well_formed(&self) -> bool {
        &&& self.width > 0
        &&& self.height > 0
        &&& self.width % 2 == 0
        &&& self.height % 2 == 0
        &&& self.width * self.height * 2 <= usize::MAX
    }

    /// Luma samples packed into one 32-bit word of the YUY2 input.
    pub open spec fn spec_y_in_px_per_word(&self) -> nat {
        2
    }

    /// Luma samples packed into one 32-bit word of the Y-plane output.
    pub open spec fn spec_y_out_px_per_word(&self) -> nat {
        4
    }

    /// Pixels of the Y-plane output: one luma sample per frame pixel.
    pub open spec fn spec_y_out_px_cnt(&self) -> nat {
        self.width as nat * self.height as nat
    }

    /// 32-bit words of the Y-plane output.
    pub open spec fn spec_y_out_word_cnt(&self) -> nat {
        self.spec_y_out_px_cnt() / 4
    }

    /// Bytes of the Y-plane output.
    pub open spec fn spec_y_out_byte_cnt(&self) -> nat {
        self.spec_y_out_word_cnt() * 4
    }

    /// Words per row of the YUY2 input as the Y program reads it.
    pub open spec fn spec_y_in_word_stride(&self) -> nat {
        self.width as nat / 2
    }

    /// Words per row of the Y-plane output.
    pub open spec fn spec_y_out_word_stride(&self) -> nat {
        self.width as nat / 4
    }

    /// Subsampling factor of the UV plane on each axis.
    pub open spec fn spec_uv_scale(&self) -> nat {
        2
    }

    /// Bytes per UV-plane pixel: one U byte and one V byte, interleaved.
    pub open spec fn spec_uv_bytes_per_px(&self) -> nat {
        2
    }

    /// UV-plane pixels packed into one 32-bit word: 4 bytes / 2 bytes per px.
    pub open spec fn spec_uv_px_per_word(&self) -> nat {
        2
    }

    /// Width of the UV plane in pixels.
    pub open spec fn spec_uv_out_width(&self) -> nat {
        self.width as nat / 2
    }

    /// Height of the UV plane in rows.
    pub open spec fn spec_uv_out_height(&self) -> nat {
        self.height as nat / 2
    }

    /// Pixels of the UV plane.
    pub open spec fn spec_uv_out_px_cnt(&self) -> nat {
        self.spec_uv_out_width() * self.spec_uv_out_height()
    }

    /// Bytes of the UV plane.
    pub open spec fn spec_uv_out_byte_cnt(&self) -> nat {
        self.spec_uv_out_px_cnt() * 2
    }

    /// Words per row of the YUY2 input as the UV program reads it.
    pub open spec fn spec_uv_in_word_stride(&self) -> nat {
        self.width as nat / 2
    }

    /// Words per row of the UV-plane output.
    pub open spec fn spec_uv_out_word_stride(&self) -> nat {
        self.spec_uv_out_width() / 2
    }

    /// Bytes of the whole NV12 output: Y plane then UV plane.
    pub open spec fn spec_total_byte_cnt(&self) -> nat {
        self.spec_y_out_byte_cnt() + self.spec_uv_out_byte_cnt()
    }

    /// Bytes of the packed YUY2 input frame.
    pub open spec fn spec_yuy2_byte_cnt(&self) -> nat {
        self.width as nat * self.height as nat * 2
    }

    pub fn y_in_px_per_word(&self) -> (r: usize)
        ensures
            r == self.spec_y_in_px_per_word(),
    {
        2
    }

    pub fn y_out_px_per_word(&self) -> (r: usize)
        ensures
            r == self.spec_y_out_px_per_word(),
    {
        4
    }

    pub fn y_out_px_cnt(&self) -> (r: usize)
        requires
            self.well_formed(),
        ensures
            r == self.spec_y_out_px_cnt(),
    {
        proof {
            self.lemma_products_fit();
        }
        self.width * self.height
    }

    pub fn y_out_word_cnt(&self) -> (r: usize)
        requires
            self.well_formed(),
        ensures
            r == self.spec_y_out_word_cnt(),
    {
        self.y_out_px_cnt() / 4
    }

    pub fn y_out_byte_cnt(&self) -> (r: usize)
        requires
            self.well_formed(),
        ensures
            r == self.spec_y_out_byte_cnt(),
    {
        self.y_out_word_cnt() * 4
    }

    pub fn y_in_word_stride(&self) -> (r: usize)
        ensures
            r == self.spec_y_in_word_stride(),
    {
        self.width / 2
    }

    pub fn y_out_word_stride(&self) -> (r: usize)
        ensures
            r == self.spec_y_out_word_stride(),
    {
        self.width / 4
    }

    pub fn uv_scale(&self) -> (r: usize)
        ensures
            r == self.spec_uv_scale(),
    {
        2
    }

    pub fn uv_bytes_per_px(&self) -> (r: usize)
        ensures
            r == self.spec_uv_bytes_per_px(),
    {
        2
    }

    pub fn uv_px_per_word(&self) -> (r: usize)
        ensures
            r == self.spec_uv_px_per_word(),
    {
        4 / self.uv_bytes_per_px()
    }

    pub fn uv_out_width(&self) -> (r: usize)
        ensures
            r == self.spec_uv_out_width(),
    {
        self.width / self.uv_scale()
    }

    pub fn uv_out_height(&self) -> (r: usize)
        ensures
            r == self.spec_uv_out_height(),
    {
        self.height / self.uv_scale()
    }

    pub fn uv_out_px_cnt(&self) -> (r: usize)
        requires
            self.well_formed(),
        ensures
            r == self.spec_uv_out_px_cnt(),
    {
        proof {
            self.lemma_products_fit();
        }
        self.uv_out_width() * self.uv_out_height()
    }

    pub fn uv_out_byte_cnt(&self) -> (r: usize)
        requires
            self.well_formed(),
        ensures
            r == self.spec_uv_out_byte_cnt(),
    {
        proof {
            self.lemma_products_fit();
        }
        self.uv_out_px_cnt() * self.uv_bytes_per_px()
    }

    pub fn uv_in_word_stride(&self) -> (r: usize)
        ensures
            r == self.spec_uv_in_word_stride(),
    {
        self.width / self.uv_px_per_word()
    }

    pub fn uv_out_word_stride(&self) -> (r: usize)
        ensures
            r == self.spec_uv_out_word_stride(),
    {
        self.uv_out_width() / self.uv_px_per_word()
    }

    pub fn total_byte_cnt(&self) -> (r: usize)
        requires
            self.well_formed(),
        ensures
            r == self.spec_total_byte_cnt(),
    {
        proof {
            self.lemma_products_fit();
        }
        self.y_out_byte_cnt() + self.uv_out_byte_cnt()
    }

    /// Bytes of the packed YUY2 input frame the session expects.
    pub fn yuy2_byte_cnt(&self) -> (r: usize)
        requires
            self.well_formed(),
        ensures
            r == self.spec_yuy2_byte_cnt(),
    {
        proof {
            self.lemma_products_fit();
        }
        self.width * self.height * 2
    }

    /// All derived quantities fit in `usize`, and the two output plane sizes
    /// account exactly for the frame's pixels: no word count is rounded down.
    pub proof fn lemma_products_fit(&self)
        requires
            self.well_formed(),
        ensures
            self.spec_y_out_px_cnt() * 2 <= usize::MAX,
            self.spec_y_out_px_cnt() % 4 == 0,
            self.spec_y_out_byte_cnt() == self.spec_y_out_px_cnt(),
            self.spec_uv_out_px_cnt() * 4 == self.spec_y_out_px_cnt(),
            self.spec_uv_out_byte_cnt() * 2 == self.spec_y_out_px_cnt(),
    {
        let w = self.width as nat;
        let h = self.height as nat;
        assert(w * h % 4 == 0 && (w / 2) * (h / 2) * 4 == w * h && ((w * h) / 4) * 4 == w * h)
            by (nonlinear_arith)
            requires
                w % 2 == 0,
                h % 2 == 0,
        ;
    }

    /// The NV12 frame occupies one and a half bytes per pixel: for every
    /// well-formed (even, positive) dimensions, the total byte count equals
    /// `width * height * 3 / 2` exactly.
    pub proof fn lemma_total_byte_cnt_is_three_halves_px(&self)
        requires
            self.well_formed(),
        ensures
            self.spec_total_byte_cnt() == self.width * self.height * 3 / 2,
    {
        self.lemma_products_fit();
        let w = self.width as nat;
        let h = self.height as nat;
        assert(w * h + ((w * h) / 2) == w * h * 3 / 2 && (w / 2) * (h / 2) * 2 == (w * h) / 2)
            by (nonlinear_arith)
            requires
                w % 2 == 0,
                h % 2 == 0,
        ;
    }

    /// Byte accounting of the two planes: the Y plane's bytes and the UV
    /// plane's bytes add up to the total, exactly and with no remainder.
    pub proof fn lemma_plane_byte_accounting(&self)
        requires
            self.well_formed(),
        ensures
            self.spec_y_out_byte_cnt() + self.spec_uv_out_byte_cnt() == self.spec_total_byte_cnt(),
    {
    }
}

} // verus!
