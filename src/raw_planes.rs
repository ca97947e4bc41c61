use vstd::prelude::*;

use crate::component::{div_ceil, CompInfo};
use vstd::arithmetic::div_mod::lemma_fundamental_div_mod_converse;

verus! {

/// Largest MCU height, in rows, that a raw read supports.
pub const MAX_MCU_HEIGHT: usize = 16;

/// Largest number of components that a raw read supports.
pub const MAX_COMPONENTS: usize = 4;

/// Why a raw read cannot be laid out. Each is a defect of the caller, and
/// the read must stop rather than write through a wrong stride.
#[derive(Clone, Copy, Debug, PartialEq, Eq)]
pub enum RawLayoutError {
    /// The MCU is taller than `MAX_MCU_HEIGHT` rows.
    McuTooTall,
    /// More components than `MAX_COMPONENTS`, or than destination planes.
    TooManyComponents,
    /// A component samples more rows than the image's largest factor.
    SamplingAboveMaximum,
    /// A destination plane would grow past the address space.
    PlaneTooLarge,
}

/// Rows in one MCU row of the whole image.
pub open spec fn mcu_height_of(max_v_samp_factor: u32) -> nat {
    max_v_samp_factor as nat * 8
}

pub open spec fn mcu_fits(max_v_samp_factor: u32) -> bool {
    mcu_height_of(max_v_samp_factor) <= MAX_MCU_HEIGHT
}

pub open spec fn components_fit(comps: Seq<CompInfo>, n_dest: nat) -> bool {
    comps.len() <= MAX_COMPONENTS && comps.len() <= n_dest
}

pub open spec fn sampling_fits(comps: Seq<CompInfo>, max_v_samp_factor: u32) -> bool {
    forall|i: int| 0 <= i < comps.len() ==> #[trigger] comps[i].v_samp_factor <= max_v_samp_factor
}

pub open spec fn planes_fit(comps: Seq<CompInfo>, dest_lens: Seq<usize>) -> bool {
    forall|i: int|
        0 <= i < comps.len() ==> dest_lens[i] + (#[trigger] comps[i]).chunk_bytes_spec() <= usize::MAX
}

/// Every condition under which one MCU row can be read into the planes.
pub open spec fn raw_layout_ok(comps: Seq<CompInfo>, max_v_samp_factor: u32, dest_lens: Seq<usize>) -> bool {
    &&& mcu_fits(max_v_samp_factor)
    &&& components_fit(comps, dest_lens.len() as nat)
    &&& sampling_fits(comps, max_v_samp_factor)
    &&& planes_fit(comps, dest_lens)
}

/// Checks that one MCU row of raw data can be read into planes currently
/// `dest_lens` bytes long, and returns the MCU height in rows.
pub fn check_raw_layout(comps: &Vec<CompInfo>, max_v_samp_factor: u32, dest_lens: &Vec<usize>) -> (r: Result<usize, RawLayoutError>)
    ensures
        r is Ok <==> raw_layout_ok(comps@, max_v_samp_factor, dest_lens@),
        r is Ok ==> r->Ok_0 == mcu_height_of(max_v_samp_factor),
        r == Err::<usize, RawLayoutError>(RawLayoutError::McuTooTall) <==> !mcu_fits(max_v_samp_factor),
        r == Err::<usize, RawLayoutError>(RawLayoutError::TooManyComponents) <==> mcu_fits(max_v_samp_factor)
            && !components_fit(comps@, dest_lens.len() as nat),
        r == Err::<usize, RawLayoutError>(RawLayoutError::SamplingAboveMaximum) <==> mcu_fits(max_v_samp_factor)
            && components_fit(comps@, dest_lens.len() as nat) && !sampling_fits(comps@, max_v_samp_factor),
        r == Err::<usize, RawLayoutError>(RawLayoutError::PlaneTooLarge) <==> mcu_fits(max_v_samp_factor)
            && components_fit(comps@, dest_lens.len() as nat) && sampling_fits(comps@, max_v_samp_factor)
            && !planes_fit(comps@, dest_lens@),
{
    if max_v_samp_factor > 2 {
        return Err(RawLayoutError::McuTooTall);
    }
    let mcu_height = max_v_samp_factor as usize * 8;
    let n = comps.len();
    if n > MAX_COMPONENTS || n > dest_lens.len() {
        return Err(RawLayoutError::TooManyComponents);
    }
    let mut i: usize = 0;
    while i < n
        invariant
            n == comps.len(),
            n <= dest_lens.len(),
            n <= MAX_COMPONENTS,
            max_v_samp_factor <= 2,
            0 <= i <= n,
            forall|j: int| 0 <= j < i ==> #[trigger] comps@[j].v_samp_factor <= max_v_samp_factor,
        decreases n - i,
    {
        if comps[i].v_samp_factor > max_v_samp_factor {
            assert(!sampling_fits(comps@, max_v_samp_factor));
            return Err(RawLayoutError::SamplingAboveMaximum);
        }
        i = i + 1;
    }
    let mut i: usize = 0;
    while i < n
        invariant
            n == comps.len(),
            n <= dest_lens.len(),
            n <= MAX_COMPONENTS,
            max_v_samp_factor <= 2,
            0 <= i <= n,
            sampling_fits(comps@, max_v_samp_factor),
            forall|j: int| 0 <= j < i ==> dest_lens@[j] + (#[trigger] comps@[j]).chunk_bytes_spec() <= usize::MAX,
        decreases n - i,
    {
        let c = comps[i];
        assert(comps@[i as int].v_samp_factor <= max_v_samp_factor);
        let rows: usize = c.v_samp_factor as usize * 8;
        let stride: u128 = c.width_in_blocks as u128 * 8;
        proof {
            assert(rows * stride <= 16 * 0x8_0000_0000u128) by (nonlinear_arith)
                requires rows <= 16, stride <= 0x8_0000_0000u128;
            assert(rows * stride == c.chunk_bytes_spec()) by (nonlinear_arith)
                requires rows == c.v_samp_factor as nat * 8, stride == c.width_in_blocks as nat * 8;
        }
        let total: u128 = dest_lens[i] as u128 + rows as u128 * stride;
        if total > usize::MAX as u128 {
            assert(!planes_fit(comps@, dest_lens@)) by {
                assert(dest_lens@[i as int] + comps@[i as int].chunk_bytes_spec() > usize::MAX);
            }
            return Err(RawLayoutError::PlaneTooLarge);
        }
        i = i + 1;
    }
    Ok(mcu_height)
}

/// One component's share of a raw read: the bytes its plane grows by, and
/// where in the grown plane each row of the MCU starts. Rows below the
/// component's own extent are `None`.
#[derive(Debug)]
pub struct ComponentRows {
    pub grow: usize,
    pub rows: Vec<Option<usize>>,
}

/// Row table of component `c` for an MCU of `mcu_height` rows, written into a
/// plane that held `start` bytes before the read.
pub open spec fn row_table(c: CompInfo, start: nat, mcu_height: nat) -> Seq<Option<usize>> {
    Seq::new(
        mcu_height,
        |ri: int|
            if ri < c.mcu_rows_spec() {
                Some((start + ri * c.row_stride_spec()) as usize)
            } else {
                None
            },
    )
}

proof fn lemma_row_in_chunk(ri: nat, rows: nat, stride: nat)
    requires
        ri < rows,
    ensures
        (ri + 1) * stride <= rows * stride,
        ri * stride + stride == (ri + 1) * stride,
{
    assert((ri + 1) * stride <= rows * stride) by (nonlinear_arith)
        requires ri + 1 <= rows;
    assert(ri * stride + stride == (ri + 1) * stride) by (nonlinear_arith);
}

/// Lays out one MCU row of a raw read: for each component, the bytes its
/// plane grows by and the start of each of its rows in the grown plane.
pub fn plan_raw_chunk(comps: &Vec<CompInfo>, max_v_samp_factor: u32, dest_lens: &Vec<usize>) -> (r: Vec<ComponentRows>)
    requires
        raw_layout_ok(comps@, max_v_samp_factor, dest_lens@),
    ensures
        r.len() == comps.len(),
        forall|i: int|
            0 <= i < r.len() ==> {
                &&& (#[trigger] r@[i]).grow == comps@[i].chunk_bytes_spec()
                &&& r@[i].rows@ == row_table(comps@[i], dest_lens@[i] as nat, mcu_height_of(max_v_samp_factor))
            },
{
    let mcu_height: usize = max_v_samp_factor as usize * 8;
    let mut out: Vec<ComponentRows> = Vec::new();
    let mut ci: usize = 0;
    while ci < comps.len()
        invariant
            raw_layout_ok(comps@, max_v_samp_factor, dest_lens@),
            mcu_height == mcu_height_of(max_v_samp_factor),
            0 <= ci <= comps.len(),
            out.len() == ci,
            forall|i: int|
                0 <= i < ci ==> {
                    &&& (#[trigger] out@[i]).grow == comps@[i].chunk_bytes_spec()
                    &&& out@[i].rows@ == row_table(comps@[i], dest_lens@[i] as nat, mcu_height as nat)
                },
        decreases comps.len() - ci,
    {
        let c = comps[ci];
        let start = dest_lens[ci];
        assert(c.v_samp_factor <= max_v_samp_factor);
        assert(start + c.chunk_bytes_spec() <= usize::MAX);
        let comp_height: usize = c.v_samp_factor as usize * 8;
        proof {
            if comp_height > 0 {
                lemma_row_in_chunk(0, comp_height as nat, c.row_stride_spec());
            }
        }
        let row_stride: usize = if comp_height == 0 { 0 } else { c.row_stride() };
        let ghost stride = c.row_stride_spec();
        let mut rows: Vec<Option<usize>> = Vec::new();
        let mut offset: usize = start;
        let mut ri: usize = 0;
        while ri < mcu_height
            invariant
                comp_height == c.mcu_rows_spec(),
                comp_height <= mcu_height,
                comp_height > 0 ==> row_stride == stride,
                stride == c.row_stride_spec(),
                start + comp_height * stride <= usize::MAX,
                c.chunk_bytes_spec() == comp_height * stride,
                0 <= ri <= mcu_height,
                rows.len() == ri,
                ri <= comp_height ==> offset == start + ri * stride,
                forall|k: int| 0 <= k < ri ==> rows@[k] == #[trigger] row_table(c, start as nat, mcu_height as nat)[k],
            decreases mcu_height - ri,
        {
            if ri < comp_height {
                proof {
                    lemma_row_in_chunk(ri as nat, comp_height as nat, stride);
                }
                rows.push(Some(offset));
                offset = offset + row_stride;
            } else {
                rows.push(None);
            }
            ri = ri + 1;
        }
        assert(rows@ == row_table(c, start as nat, mcu_height as nat));
        let grow: usize = if comp_height == 0 { 0 } else { comp_height * row_stride };
        out.push(ComponentRows { grow, rows });
        ci = ci + 1;
    }
    out
}

/// MCU rows that a raw read performs from output row `scanline` on: one pass
/// while rows are pending, each pass advancing by the MCU height.
pub open spec fn raw_passes(scanline: nat, height: nat, mcu_height: nat) -> nat
    decreases if scanline < height { height - scanline } else { 0 },
{
    if mcu_height > 0 && scanline < height {
        1 + raw_passes(scanline + mcu_height, height, mcu_height)
    } else {
        0
    }
}

proof fn lemma_div_ceil_bounds(a: int, m: int)
    requires
        a >= 0,
        m > 0,
    ensures
        (div_ceil(a, m) - 1) * m < a <= div_ceil(a, m) * m,
{
    let q = a / m;
    let r = a % m;
    assert(a == q * m + r && 0 <= r < m) by {
        vstd::arithmetic::div_mod::lemma_fundamental_div_mod(a, m);
        assert(q * m == m * q) by (nonlinear_arith);
    }
    if r == 0 {
        assert((q - 1) * m == q * m - m) by (nonlinear_arith);
    } else {
        assert((q + 1) * m == q * m + m) by (nonlinear_arith);
    }
}

proof fn lemma_div_ceil_unique(a: int, m: int, q: int)
    requires
        a >= 0,
        m > 0,
        (q - 1) * m < a <= q * m,
    ensures
        div_ceil(a, m) == q,
{
    assert((q - 1) * m == q * m - m) by (nonlinear_arith);
    if a == q * m {
        lemma_fundamental_div_mod_converse(a, m, q, 0);
    } else {
        lemma_fundamental_div_mod_converse(a, m, q - 1, a - (q - 1) * m);
    }
}

proof fn lemma_raw_passes(scanline: nat, height: nat, mcu_height: nat)
    requires
        mcu_height > 0,
    ensures
        raw_passes(scanline, height, mcu_height) == if scanline < height {
            div_ceil(height - scanline, mcu_height as int)
        } else {
            0
        },
    decreases if scanline < height { height - scanline } else { 0 },
{
    if scanline < height {
        let a = height - scanline;
        let m = mcu_height as int;
        lemma_raw_passes(scanline + mcu_height, height, mcu_height);
        if scanline + mcu_height < height {
            let q = div_ceil(a - m, m);
            lemma_div_ceil_bounds(a - m, m);
            assert((q + 1 - 1) * m < a <= (q + 1) * m) by (nonlinear_arith)
                requires (q - 1) * m < a - m <= q * m;
            lemma_div_ceil_unique(a, m, q + 1);
        } else {
            lemma_div_ceil_unique(a, m, 1);
        }
    }
}

/// Doubling the extent doubles the block count in 16-sample units exactly
/// when the extent does not end in the first half of a 16-sample unit.
proof fn lemma_double_extent(x: int)
    requires
        x >= 0,
        x % 16 == 0 || x % 16 > 8,
    ensures
        div_ceil(2 * x, 16) == 2 * div_ceil(x, 16),
{
    let q = div_ceil(x, 16);
    lemma_div_ceil_bounds(x, 16);
    lemma_div_ceil_unique(2 * x, 16, 2 * q);
}

/// A full raw decode leaves each component's plane at exactly row stride ×
/// col stride bytes, and so the plane's length divided by its row stride is
/// its col stride. The MCU-height ceiling limits the largest vertical
/// sampling factor to 2; with that factor, a component sampled twice
/// vertically on an image whose height ends in the first half of a 16-row
/// MCU is read with one block row more than its col stride counts, and is
/// left out.
pub proof fn lemma_full_raw_plane_len(c: CompInfo, width: nat, height: nat, max_h: nat, max_v: nat)
    requires
        1 <= max_v,
        max_v * 8 <= MAX_MCU_HEIGHT,
        c.fits_image(width as int, height as int, max_h as int, max_v as int),
        !(c.v_samp_factor == 2 && 1 <= height % 16 <= 8),
    ensures
        raw_passes(0, height, max_v * 8) * c.chunk_bytes_spec() == c.row_stride_spec() * c.col_stride_spec(),
        c.row_stride_spec() > 0 ==> raw_passes(0, height, max_v * 8) * c.chunk_bytes_spec() / c.row_stride_spec()
            == c.col_stride_spec(),
{
    let m = max_v * 8;
    lemma_raw_passes(0, height, m);
    let passes = raw_passes(0, height, m);
    let rs = c.row_stride_spec();
    let v = c.v_samp_factor as nat;
    assert(passes * v == c.height_in_blocks) by {
        if height == 0 {
            assert(height * v == 0);
            lemma_div_ceil_unique(0, 8 * max_v as int, 0);
        } else if v == max_v {
            assert(height * v / (8 * max_v) == height / 8 || max_v == 2);
            if max_v == 1 {
                assert(height * v == height);
            } else {
                assert(height * v == 2 * height);
                lemma_double_extent(height as int);
            }
        } else {
            assert(v == 1);
            assert(height * v == height);
        }
    }
    assert(passes * c.chunk_bytes_spec() == rs * c.col_stride_spec()) by (nonlinear_arith)
        requires
            passes * v == c.height_in_blocks,
            c.chunk_bytes_spec() == v * 8 * rs,
            c.col_stride_spec() == c.height_in_blocks * 8;
    if rs > 0 {
        assert(rs * c.col_stride_spec() / rs == c.col_stride_spec()) by (nonlinear_arith)
            requires rs > 0;
    }
}

/// With 4:2:0 subsampling (luma sampled 2×2, chroma 1×1), after any number of
/// passes the luma plane is four times as long as a chroma plane, provided
/// the image width does not end in the first half of a 16-pixel MCU; on such
/// widths the luma row stride is one block short of twice the chroma's.
pub proof fn lemma_quarter_chroma_planes(luma: CompInfo, chroma: CompInfo, width: nat, height: nat, passes: nat)
    requires
        luma.fits_image(width as int, height as int, 2, 2),
        chroma.fits_image(width as int, height as int, 2, 2),
        luma.h_samp_factor == 2 && luma.v_samp_factor == 2,
        chroma.h_samp_factor == 1 && chroma.v_samp_factor == 1,
        width % 16 == 0 || width % 16 > 8,
    ensures
        passes * luma.chunk_bytes_spec() == 4 * (passes * chroma.chunk_bytes_spec()),
{
    assert(width * 2 == 2 * width);
    lemma_double_extent(width as int);
    assert(luma.width_in_blocks == 2 * chroma.width_in_blocks);
    assert(passes * luma.chunk_bytes_spec() == 4 * (passes * chroma.chunk_bytes_spec())) by (nonlinear_arith)
        requires
            luma.chunk_bytes_spec() == 16 * (luma.width_in_blocks * 8),
            chroma.chunk_bytes_spec() == 8 * (chroma.width_in_blocks * 8),
            luma.width_in_blocks == 2 * chroma.width_in_blocks;
}

/// Any two layouts that meet `plan_raw_chunk`'s contract for the same
/// components, largest vertical sampling factor and plane lengths agree:
/// each plane grows by the same bytes and gets the same row table.
pub proof fn lemma_raw_plan_deterministic(
    comps: Seq<CompInfo>,
    max_v_samp_factor: u32,
    dest_lens: Seq<usize>,
    a: Seq<ComponentRows>,
    b: Seq<ComponentRows>,
)
    requires
        a.len() == comps.len() && b.len() == comps.len(),
        forall|i: int|
            0 <= i < a.len() ==> {
                &&& (#[trigger] a[i]).grow == comps[i].chunk_bytes_spec()
                &&& a[i].rows@ == row_table(comps[i], dest_lens[i] as nat, mcu_height_of(max_v_samp_factor))
            },
        forall|i: int|
            0 <= i < b.len() ==> {
                &&& (#[trigger] b[i]).grow == comps[i].chunk_bytes_spec()
                &&& b[i].rows@ == row_table(comps[i], dest_lens[i] as nat, mcu_height_of(max_v_samp_factor))
            },
    ensures
        forall|i: int| 0 <= i < a.len() ==> (#[trigger] a[i]).grow == b[i].grow && a[i].rows@ == b[i].rows@,
{
    assert forall|i: int| 0 <= i < a.len() implies (#[trigger] a[i]).grow == b[i].grow && a[i].rows@ == b[i].rows@ by {
        assert(b[i].grow == comps[i].chunk_bytes_spec());
    }
}

} // verus!
