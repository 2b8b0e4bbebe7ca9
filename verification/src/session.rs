//! Conversion session configuration: the validated parameters one session is
//! built from, the storage-buffer binding roles, and the per-plane dispatch
//! sizes. Construction rejects dimensions that the layout arithmetic or the
//! chosen work-group tile size cannot serve, so that every dispatch of a
//! valid session covers its plane exactly — over-dispatching into
//! out-of-bounds cells is ruled out here rather than bounds-checked inside
//! the generated programs.

use vstd::prelude::*;

use crate::convert;
use crate::dispatch;
use crate::dispatch::spec_group_count;
use crate::error::ConvertError;
use crate::layout::Nv12SizeInfo;
use crate::shader;

verus! {

/// The role of a storage buffer in a compute pass. Binding indices are
/// derived from the role in exactly one place, `binding_index`, so buffer
/// creation, program declaration and dispatch binding cannot disagree.
#[derive(Debug, Clone, Copy, PartialEq, Eq, Structural)]
pub enum BufferRole {
    /// Written by the host, read by the program.
    Input,
    /// Written by the program, read back by the host.
    Output,
}

/// The storage-buffer binding index of each role: input 0, output 1.
pub open spec fn spec_binding_index(role: BufferRole) -> u32 {
    match role {
        BufferRole::Input => 0,
        BufferRole::Output => 1,
    }
}

/// The fixed binding index a buffer of the given role is bound at, the same
/// index the generated program declares for it.
pub fn binding_index(role: BufferRole) -> (r: u32)
    ensures
        r == spec_binding_index(role),
{
    match role {
        BufferRole::Input => 0,
        BufferRole::Output => 1,
    }
}

/// The validated parameters of one conversion session: frame dimensions and
/// the work-group tile sizes every dispatch uses.
#[derive(Debug, Clone, Copy, PartialEq, Eq, Structural)]
pub struct SessionConfig {
    pub info: Nv12SizeInfo,
    pub local_size_x: usize,
    pub local_size_y: usize,
}

impl SessionConfig {
    /// What session construction accepts: positive, even dimensions whose
    /// YUY2 frame fits in `usize`, a width packing whole output words per
    /// row, and a positive tile size dividing the row count and the output
    /// word stride of both planes.
    pub open spec fn spec_valid(width: nat, height: nat, local_size: nat) -> bool {
        &&& width > 0
        &&& height > 0
        &&& width % 2 == 0
        &&& height % 2 == 0
        &&& width * height * 2 <= usize::MAX
        &&& width % 4 == 0
        &&& local_size > 0
        &&& height % local_size == 0
        &&& (height / 2) % local_size == 0
        &&& (width / 4) % local_size == 0
    }

    /// The invariant every constructed session satisfies.
    pub open spec fn well_formed(&self) -> bool {
        &&& self.info.well_formed()
        &&& self.info.width % 4 == 0
        &&& self.local_size_x > 0
        &&& self.local_size_y > 0
        &&& self.info.height as nat % self.local_size_y as nat == 0
        &&& (self.info.height as nat / 2) % self.local_size_y as nat == 0
        &&& (self.info.width as nat / 4) % self.local_size_x as nat == 0
    }

    /// Validates the parameters of a session and fixes them for its
    /// lifetime. Accepts exactly the dimensions `spec_valid` allows and
    /// rejects every other combination before any GPU resource is touched.
    pub fn new(width: usize, height: usize, local_size: usize) -> (r: Result<
        SessionConfig,
        ConvertError,
    >)
        ensures
            match r {
                Ok(c) => {
                    &&& Self::spec_valid(width as nat, height as nat, local_size as nat)
                    &&& c == (SessionConfig {
                        info: Nv12SizeInfo { width, height },
                        local_size_x: local_size,
                        local_size_y: local_size,
                    })
                    &&& c.well_formed()
                },
                Err(e) => {
                    &&& !Self::spec_valid(width as nat, height as nat, local_size as nat)
                    &&& e == (ConvertError::Dimensions { width, height, local_size })
                },
            },
    {
        let dims_ok = width > 0 && height > 0 && width % 2 == 0 && height % 2 == 0 && width % 4
            == 0 && local_size > 0 && height % local_size == 0 && (height / 2) % local_size == 0
            && (width / 4) % local_size == 0;
        let fits = match width.checked_mul(height) {
            Some(p) => p.checked_mul(2).is_some(),
            None => false,
        };
        if dims_ok && fits {
            Ok(
                SessionConfig {
                    info: Nv12SizeInfo { width, height },
                    local_size_x: local_size,
                    local_size_y: local_size,
                },
            )
        } else {
            Err(ConvertError::Dimensions { width, height, local_size })
        }
    }

    /// The source of this session's Y-extraction program, with the session's
    /// tile sizes and the role-derived binding indices substituted in.
    pub fn y_shader_source(&self) -> (r: String)
        ensures
            r@ == shader::spec_y_shader_source(
                self.info.height as nat,
                self.info.spec_y_in_word_stride(),
                self.info.spec_y_out_word_stride(),
                self.info.spec_y_out_px_per_word(),
                self.local_size_x as nat,
                self.local_size_y as nat,
                spec_binding_index(BufferRole::Input) as nat,
                spec_binding_index(BufferRole::Output) as nat,
            ),
    {
        shader::yuy2_to_y8_source(
            &self.info,
            self.local_size_x,
            self.local_size_y,
            binding_index(BufferRole::Input),
            binding_index(BufferRole::Output),
        )
    }

    /// The source of this session's UV-extraction program.
    pub fn uv_shader_source(&self) -> (r: String)
        ensures
            r@ == shader::spec_uv_shader_source(
                self.info.height as nat,
                self.info.spec_uv_out_height(),
                self.info.spec_uv_in_word_stride(),
                self.info.spec_uv_out_word_stride(),
                self.info.spec_uv_px_per_word(),
                self.local_size_x as nat,
                self.local_size_y as nat,
                spec_binding_index(BufferRole::Input) as nat,
                spec_binding_index(BufferRole::Output) as nat,
            ),
    {
        shader::yuy2_to_uv_source(
            &self.info,
            self.local_size_x,
            self.local_size_y,
            binding_index(BufferRole::Input),
            binding_index(BufferRole::Output),
        )
    }

    /// Work-group counts of the Y-extraction dispatch. For a well-formed
    /// session they cover the Y plane exactly: every output row and word is
    /// written, and no invocation falls outside the plane.
    pub fn y_dispatch(&self) -> (r: (usize, usize, usize))
        requires
            self.well_formed(),
        ensures
            r.0 == spec_group_count(self.info.height as nat, self.local_size_y as nat),
            r.1 == spec_group_count(self.info.spec_y_out_word_stride(), self.local_size_x as nat),
            r.2 == 1,
            r.0 * self.local_size_y == self.info.height,
            r.1 * self.local_size_x == self.info.spec_y_out_word_stride(),
    {
        let stride = self.info.y_out_word_stride();
        let r = dispatch::dispatch_group_counts(
            self.info.height,
            stride,
            self.local_size_x,
            self.local_size_y,
        );
        proof {
            dispatch::lemma_groups_cover_exactly(
                self.info.height as nat,
                self.local_size_y as nat,
            );
            dispatch::lemma_groups_cover_exactly(
                self.info.spec_y_out_word_stride(),
                self.local_size_x as nat,
            );
        }
        r
    }

    /// Work-group counts of the UV-extraction dispatch. For a well-formed
    /// session they cover the UV plane exactly.
    pub fn uv_dispatch(&self) -> (r: (usize, usize, usize))
        requires
            self.well_formed(),
        ensures
            r.0 == spec_group_count(self.info.spec_uv_out_height(), self.local_size_y as nat),
            r.1 == spec_group_count(self.info.spec_uv_out_word_stride(), self.local_size_x as nat),
            r.2 == 1,
            r.0 * self.local_size_y == self.info.spec_uv_out_height(),
            r.1 * self.local_size_x == self.info.spec_uv_out_word_stride(),
    {
        let rows = self.info.uv_out_height();
        let stride = self.info.uv_out_word_stride();
        proof {
            assert(self.info.spec_uv_out_word_stride() == self.info.width as nat / 4) by {
                vstd::arithmetic::div_mod::lemma_div_denominator(self.info.width as int, 2, 2);
            };
        }
        let r = dispatch::dispatch_group_counts(rows, stride, self.local_size_x, self.local_size_y);
        proof {
            dispatch::lemma_groups_cover_exactly(
                self.info.spec_uv_out_height(),
                self.local_size_y as nat,
            );
            dispatch::lemma_groups_cover_exactly(
                self.info.spec_uv_out_word_stride(),
                self.local_size_x as nat,
            );
        }
        r
    }

    /// The array extents the generated programs declare match the buffers
    /// byte for byte: `rows * word_stride` words of four bytes is exactly
    /// the byte count each buffer is allocated with, for the input and for
    /// both output planes. A mismatch here would be undefined behavior at
    /// the driver level, so it is ruled out for every well-formed session.
    pub proof fn lemma_declared_bounds_match_buffer_sizes(&self)
        requires
            self.well_formed(),
        ensures
            self.info.height * self.info.spec_y_in_word_stride() * 4
                == self.info.spec_yuy2_byte_cnt(),
            self.info.height * self.info.spec_y_out_word_stride() * 4
                == self.info.spec_y_out_byte_cnt(),
            self.info.spec_uv_out_height() * self.info.spec_uv_in_word_stride() * 4
                == self.info.spec_yuy2_byte_cnt() / 2,
            self.info.spec_uv_out_height() * self.info.spec_uv_out_word_stride() * 4
                == self.info.spec_uv_out_byte_cnt(),
    {
        self.info.lemma_products_fit();
        let w = self.info.width as nat;
        let h = self.info.height as nat;
        assert(h * (w / 2) * 4 == w * h * 2 && h * (w / 4) * 4 == ((w * h) / 4) * 4 && (h / 2) * (w
            / 2) * 4 == (w * h * 2) / 2 && (h / 2) * ((w / 2) / 2) * 4 == (w / 2) * (h / 2) * 2)
            by (nonlinear_arith)
            requires
                w % 4 == 0,
                h % 2 == 0,
        ;
    }

    /// Converts one frame on the host, with this session's layout: validates
    /// the input length, then returns the Y plane followed by the UV plane.
    /// The GPU path computes the same bytes; this is the session's
    /// authoritative semantics.
    pub fn convert_frame(&self, src: &Vec<u8>) -> (r: Result<Vec<u8>, ConvertError>)
        requires
            self.well_formed(),
        ensures
            match r {
                Ok(out) => {
                    &&& src@.len() == self.info.spec_yuy2_byte_cnt()
                    &&& out@ == convert::spec_nv12_frame(
                        src@,
                        self.info.width as nat,
                        self.info.height as nat,
                    )
                    &&& out@.len() == self.info.spec_total_byte_cnt()
                },
                Err(e) => {
                    &&& src@.len() != self.info.spec_yuy2_byte_cnt()
                    &&& e == (ConvertError::FrameSize {
                        expected: (self.info.width * self.info.height * 2) as usize,
                        actual: src@.len() as usize,
                    })
                },
            },
    {
        convert::convert_frame(src, &self.info)
    }
}

} // verus!
