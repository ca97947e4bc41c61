use mozjpeg_decode::component::CompInfo;
use mozjpeg_decode::raw_planes::{check_raw_layout, plan_raw_chunk, RawLayoutError};
use mozjpeg_decode::session::{more_pending, raw_rows_complete};

fn components_420() -> Vec<CompInfo> {
    vec![
        CompInfo::new(1, 2, 2, 6, 4),
        CompInfo::new(2, 1, 1, 3, 2),
        CompInfo::new(3, 1, 1, 3, 2),
    ]
}

#[test]
fn strides_of_420_image() {
    let comps = components_420();
    assert_eq!(48, comps[0].row_stride());
    assert_eq!(32, comps[0].col_stride());
    assert_eq!(24, comps[1].row_stride());
    assert_eq!(16, comps[1].col_stride());
    assert_eq!(24, comps[2].row_stride());
    assert_eq!(16, comps[2].col_stride());
}

#[test]
fn layout_accepts_420() {
    let comps = components_420();
    assert_eq!(Ok(16), check_raw_layout(&comps, 2, &vec![0, 0, 0]));
    assert_eq!(Ok(16), check_raw_layout(&comps, 2, &vec![0, 0, 0, 0]));
}

#[test]
fn layout_rejects_tall_mcu() {
    let comps = components_420();
    assert_eq!(Err(RawLayoutError::McuTooTall), check_raw_layout(&comps, 3, &vec![0, 0, 0]));
}

#[test]
fn layout_rejects_too_few_destinations() {
    let comps = components_420();
    assert_eq!(Err(RawLayoutError::TooManyComponents), check_raw_layout(&comps, 2, &vec![0, 0]));
}

#[test]
fn layout_rejects_five_components() {
    let mut comps = components_420();
    comps.push(CompInfo::new(4, 1, 1, 3, 2));
    comps.push(CompInfo::new(5, 1, 1, 3, 2));
    assert_eq!(Err(RawLayoutError::TooManyComponents), check_raw_layout(&comps, 2, &vec![0; 5]));
}

#[test]
fn layout_rejects_sampling_above_maximum() {
    let comps = components_420();
    assert_eq!(Err(RawLayoutError::SamplingAboveMaximum), check_raw_layout(&comps, 1, &vec![0, 0, 0]));
}

#[test]
fn layout_rejects_overfull_plane() {
    let comps = components_420();
    assert_eq!(Err(RawLayoutError::PlaneTooLarge), check_raw_layout(&comps, 2, &vec![0, usize::MAX - 10, 0]));
}

#[test]
fn plan_pads_short_components() {
    let comps = components_420();
    let plan = plan_raw_chunk(&comps, 2, &vec![100, 0, 7]);
    assert_eq!(3, plan.len());
    assert_eq!(16 * 48, plan[0].grow);
    assert_eq!(8 * 24, plan[1].grow);
    assert_eq!(16, plan[0].rows.len());
    assert_eq!(16, plan[1].rows.len());
    for ri in 0..16 {
        assert_eq!(Some(100 + ri * 48), plan[0].rows[ri]);
    }
    for ri in 0..8 {
        assert_eq!(Some(ri * 24), plan[1].rows[ri]);
        assert_eq!(Some(7 + ri * 24), plan[2].rows[ri]);
    }
    for ri in 8..16 {
        assert_eq!(None, plan[1].rows[ri]);
        assert_eq!(None, plan[2].rows[ri]);
    }
}

/// Runs the raw read loop as a session does, with an engine that always
/// produces the full MCU row.
fn simulate_raw_decode(comps: &Vec<CompInfo>, max_v: u32, height: u32) -> Vec<usize> {
    let mut lens = vec![0usize; comps.len()];
    let mut scanline: u32 = 0;
    while more_pending(scanline, height) {
        let mcu = check_raw_layout(comps, max_v, &lens).unwrap();
        let plan = plan_raw_chunk(comps, max_v, &lens);
        for (len, part) in lens.iter_mut().zip(plan.iter()) {
            *len += part.grow;
        }
        assert!(raw_rows_complete(mcu, mcu));
        scanline += mcu as u32;
        assert_eq!(lens[0], 4 * lens[1]);
    }
    lens
}

#[test]
fn full_raw_decode_fills_row_by_col_stride() {
    let comps = components_420();
    let lens = simulate_raw_decode(&comps, 2, 30);
    for (len, comp) in lens.iter().zip(comps.iter()) {
        assert_eq!(comp.row_stride() * comp.col_stride(), *len);
        assert_eq!(comp.col_stride(), *len / comp.row_stride());
    }
    assert_eq!(vec![1536, 384, 384], lens);
}

#[test]
fn raw_rows_complete_rejects_partial_read() {
    assert!(raw_rows_complete(16, 16));
    assert!(!raw_rows_complete(8, 16));
}
