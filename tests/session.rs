use mozjpeg_decode::colorspace::ColorSpace;
use mozjpeg_decode::marker::{all_markers, marker_tags, no_markers, Marker};
use mozjpeg_decode::session::{
    format_for, more_pending, next_scanline, pixel_width_matches, scanline_buffer_len, scanline_progress,
    DecodeError, OutputMode, PixelFormat, ScanlineStep, Stage,
};

#[test]
fn component_counts() {
    assert_eq!(3, ColorSpace::JCS_RGB.num_components());
    assert_eq!(3, ColorSpace::JCS_YCbCr.num_components());
    assert_eq!(1, ColorSpace::JCS_GRAYSCALE.num_components());
    assert_eq!(4, ColorSpace::JCS_CMYK.num_components());
    assert_eq!(4, ColorSpace::JCS_EXT_RGBA.num_components());
    assert_eq!(0, ColorSpace::JCS_UNKNOWN.num_components());
}

#[test]
fn native_format_selection() {
    assert_eq!(Ok(PixelFormat::RGB), format_for(ColorSpace::JCS_RGB));
    assert_eq!(Ok(PixelFormat::Gray), format_for(ColorSpace::JCS_GRAYSCALE));
    assert_eq!(Ok(PixelFormat::CMYK), format_for(ColorSpace::JCS_CMYK));
    assert_eq!(
        Err(DecodeError::UnsupportedColorSpace(ColorSpace::JCS_YCbCr)),
        format_for(ColorSpace::JCS_YCbCr)
    );
}

#[test]
fn lifecycle_runs_forward() {
    let s = Stage::new();
    assert_eq!(Stage::Unopened, s);
    assert!(!s.can_read());
    let s = s.after_header(1).unwrap();
    assert_eq!(Stage::HeaderParsed, s);
    assert!(!s.can_read());
    let s = s.after_start(OutputMode::Raw, 1).unwrap();
    assert!(s.can_read());
    assert!(s.can_read_raw());
    let s = s.finish();
    assert_eq!(Stage::Finished, s);
    assert!(!s.can_read());
    assert!(!s.can_read_raw());
}

#[test]
fn interleaved_start_forbids_raw_reads() {
    let s = Stage::HeaderParsed.after_start(OutputMode::Interleaved(ColorSpace::JCS_RGB), 1).unwrap();
    assert!(s.can_read());
    assert!(!s.can_read_raw());
}

#[test]
fn header_and_start_failures() {
    assert_eq!(Err(DecodeError::Header(2)), Stage::Unopened.after_header(2));
    assert_eq!(Err(DecodeError::Start(0)), Stage::HeaderParsed.after_start(OutputMode::Raw, 0));
    assert_eq!("JPEG err 2", DecodeError::Header(2).message());
    assert_eq!("JPEG err 0", DecodeError::Start(0).message());
}

#[test]
fn scanline_reads_cover_buffer() {
    assert_eq!(Some(1350), scanline_buffer_len(45, 30));
    assert_eq!(None, scanline_buffer_len(usize::MAX, 2));
    assert_eq!(ScanlineStep::Read(0), next_scanline(45, 30, 0));
    assert_eq!(ScanlineStep::Read(45 * 29), next_scanline(45, 30, 29));
    assert_eq!(ScanlineStep::Done, next_scanline(45, 30, 30));
    assert!(more_pending(29, 30));
    assert!(!more_pending(30, 30));
    assert!(!scanline_progress(0));
    assert!(scanline_progress(1));
}

#[test]
fn pixel_width_check() {
    assert!(pixel_width_matches(ColorSpace::JCS_RGB, 3));
    assert!(!pixel_width_matches(ColorSpace::JCS_RGB, 4));
    assert!(pixel_width_matches(ColorSpace::JCS_CMYK, 4));
    assert!(pixel_width_matches(ColorSpace::JCS_GRAYSCALE, 1));
}

#[test]
fn marker_tag_bytes() {
    assert_eq!(0xE0, Marker::APP(0).tag());
    assert_eq!(0xEF, Marker::APP(15).tag());
    assert_eq!(0xFE, Marker::COM.tag());
    assert_eq!(Some(Marker::APP(1)), Marker::from_tag(0xE1));
    assert_eq!(Some(Marker::COM), Marker::from_tag(0xFE));
    assert_eq!(None, Marker::from_tag(0xD8));
    assert_eq!(None, Marker::from_tag(0xF0));
}

#[test]
fn marker_selection() {
    assert!(marker_tags(&no_markers()).is_empty());
    let all = all_markers();
    assert_eq!(17, all.len());
    let tags = marker_tags(&all);
    let mut expected: Vec<u8> = (0xE0..=0xEF).collect();
    expected.push(0xFE);
    assert_eq!(expected, tags);
    assert_eq!(vec![0xE1, 0xFE], marker_tags(&vec![Marker::APP(1), Marker::COM]));
}

#[test]
fn error_messages_carry_the_code() {
    assert_eq!("JPEG err 12", DecodeError::Header(12).message());
    assert_eq!("JPEG err -3", DecodeError::Header(-3).message());
    assert_eq!("JPEG err 2147483647", DecodeError::Start(i32::MAX).message());
    assert_eq!("JPEG err -2147483648", DecodeError::Start(i32::MIN).message());
    assert_eq!("JPEG err 100", DecodeError::Start(100).message());
}

#[test]
fn unsupported_colorspace_message_names_it() {
    assert_eq!("JCS_YCbCr", DecodeError::UnsupportedColorSpace(ColorSpace::JCS_YCbCr).message());
    assert_eq!("JCS_EXT_RGBA", ColorSpace::JCS_EXT_RGBA.name());
    assert_eq!("JCS_RGB565", ColorSpace::JCS_RGB565.name());
}
