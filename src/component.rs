use vstd::prelude::*;

verus! {

/// Width and height, in samples, of one DCT block.
pub const DCTSIZE: u32 = 8;

/// Per-plane metadata of a decoded image: sampling factors and the size of
/// the plane in DCT blocks, as the decoding engine reports them after the
/// header has been parsed.
#[derive(Clone, Copy, Debug, PartialEq, Eq)]
pub struct CompInfo {
    pub component_id: u32,
    pub h_samp_factor: u32,
    pub v_samp_factor: u32,
    pub width_in_blocks: u32,
    pub height_in_blocks: u32,
}

/// `ceil(a / b)` for a positive `b`.
pub open spec fn div_ceil(a: int, b: int) -> int
    recommends
        b > 0,
{
    if a % b == 0 {
        a / b
    } else {
        a / b + 1
    }
}

impl CompInfo {
    /// Bytes in one row of this component's raw plane.
    pub open spec fn row_stride_spec(self) -> nat {
        self.width_in_blocks as nat * 8
    }

    /// Rows in this component's raw plane.
    pub open spec fn col_stride_spec(self) -> nat {
        self.height_in_blocks as nat * 8
    }

    /// Rows this component contributes to one MCU row.
    pub open spec fn mcu_rows_spec(self) -> nat {
        self.v_samp_factor as nat * 8
    }

    /// Bytes this component's plane grows by for one MCU row.
    pub open spec fn chunk_bytes_spec(self) -> nat {
        self.mcu_rows_spec() * self.row_stride_spec()
    }

    /// The block counts are those that an image of `width` × `height` pixels
    /// with the given largest sampling factors gives this component.
    pub open spec fn fits_image(self, width: int, height: int, max_h: int, max_v: int) -> bool {
        &&& 1 <= self.h_samp_factor <= max_h
        &&& 1 <= self.v_samp_factor <= max_v
        &&& self.width_in_blocks as int == div_ceil(width * self.h_samp_factor, 8 * max_h)
        &&& self.height_in_blocks as int == div_ceil(height * self.v_samp_factor, 8 * max_v)
    }

    pub fn new(component_id: u32, h_samp_factor: u32, v_samp_factor: u32, width_in_blocks: u32, height_in_blocks: u32) -> (r: CompInfo)
        ensures
            r == (CompInfo { component_id, h_samp_factor, v_samp_factor, width_in_blocks, height_in_blocks }),
    {
        CompInfo { component_id, h_samp_factor, v_samp_factor, width_in_blocks, height_in_blocks }
    }

    /// Bytes in one row of this component's raw plane.
    pub fn row_stride(&self) -> (r: usize)
        requires
            self.row_stride_spec() <= usize::MAX,
        ensures
            r == self.row_stride_spec(),
    {
        self.width_in_blocks as usize * DCTSIZE as usize
    }

    /// Rows in this component's raw plane.
    pub fn col_stride(&self) -> (r: usize)
        requires
            self.col_stride_spec() <= usize::MAX,
        ensures
            r == self.col_stride_spec(),
    {
        self.height_in_blocks as usize * DCTSIZE as usize
    }
}

} // verus!
