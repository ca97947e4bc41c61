use vstd::prelude::*;

use crate::colorspace::{components_of, name_of, ColorSpace};
use crate::decimal::{append_decimal, decimal};
use vstd::string::StringExecFns;

verus! {

/// Status the engine's header parse returns for a complete image header.
pub const JPEG_HEADER_OK: i32 = 1;

/// Why a session could not go on. The session is unusable afterwards; the
/// caller's process is not affected.
#[derive(Clone, Copy, Debug, PartialEq, Eq)]
pub enum DecodeError {
    /// The header parse returned this status instead of a complete header.
    Header(i32),
    /// The engine refused to start decoding and returned this status.
    Start(i32),
    /// Decoding started in a colorspace that has no typed pixel view.
    UnsupportedColorSpace(ColorSpace),
}

impl DecodeError {
    /// A one-line description: the engine's diagnostic code after
    /// `JPEG err `, or the name of the unsupported colorspace.
    pub fn message(&self) -> (r: String)
        ensures
            *self matches DecodeError::Header(c) ==> r@ == "JPEG err "@ + decimal(c as int),
            *self matches DecodeError::Start(c) ==> r@ == "JPEG err "@ + decimal(c as int),
            *self matches DecodeError::UnsupportedColorSpace(cs) ==> r@ == name_of(cs),
    {
        match self {
            DecodeError::Header(code) | DecodeError::Start(code) => {
                let mut s = String::from_str("JPEG err ");
                append_decimal(&mut s, *code);
                s
            },
            DecodeError::UnsupportedColorSpace(cs) => String::from_str(cs.name()),
        }
    }
}

/// The typed pixel view that a natively decoded image gets.
#[derive(Clone, Copy, Debug, PartialEq, Eq)]
pub enum PixelFormat {
    RGB,
    Gray,
    CMYK,
}

/// How the decoded image is delivered.
#[derive(Clone, Copy, Debug, PartialEq, Eq)]
pub enum OutputMode {
    /// Interleaved scanlines, converted by the engine to this colorspace.
    Interleaved(ColorSpace),
    /// One subsampled plane per component, without color conversion.
    Raw,
}

/// Where a session is in its one-way lifecycle.
#[derive(Clone, Copy, Debug, PartialEq, Eq)]
pub enum Stage {
    Unopened,
    HeaderParsed,
    Started(OutputMode),
    Finished,
}

/// Position of a stage in the lifecycle; every transition raises it.
pub open spec fn stage_rank(s: Stage) -> nat {
    match s {
        Stage::Unopened => 0,
        Stage::HeaderParsed => 1,
        Stage::Started(_) => 2,
        Stage::Finished => 3,
    }
}

/// The pixel view for a negotiated output colorspace, or `None` where there
/// is none.
pub open spec fn format_of(cs: ColorSpace) -> Option<PixelFormat> {
    match cs {
        ColorSpace::JCS_RGB => Some(PixelFormat::RGB),
        ColorSpace::JCS_CMYK => Some(PixelFormat::CMYK),
        ColorSpace::JCS_GRAYSCALE => Some(PixelFormat::Gray),
        _ => None,
    }
}

/// Chooses the typed pixel view for the colorspace that decoding negotiated.
pub fn format_for(out_color_space: ColorSpace) -> (r: Result<PixelFormat, DecodeError>)
    ensures
        format_of(out_color_space) matches Some(f) ==> r == Ok::<PixelFormat, DecodeError>(f),
        format_of(out_color_space) is None ==> r == Err::<PixelFormat, DecodeError>(
            DecodeError::UnsupportedColorSpace(out_color_space),
        ),
{
    match out_color_space {
        ColorSpace::JCS_RGB => Ok(PixelFormat::RGB),
        ColorSpace::JCS_CMYK => Ok(PixelFormat::CMYK),
        ColorSpace::JCS_GRAYSCALE => Ok(PixelFormat::Gray),
        other => Err(DecodeError::UnsupportedColorSpace(other)),
    }
}

/// Bytes in one pixel of a typed view.
pub open spec fn pixel_bytes_of(f: PixelFormat) -> nat {
    match f {
        PixelFormat::RGB => 3,
        PixelFormat::Gray => 1,
        PixelFormat::CMYK => 4,
    }
}

/// A typed view reads pixels as wide as its colorspace's components.
pub proof fn lemma_format_width(cs: ColorSpace)
    ensures
        format_of(cs) matches Some(f) ==> pixel_bytes_of(f) == components_of(cs),
{
}

impl Stage {
    /// Whether pixel data may be read in this stage.
    pub open spec fn reads_allowed(self) -> bool {
        self is Started
    }

    /// A fresh session, before the header is parsed.
    pub fn new() -> (r: Stage)
        ensures
            r == Stage::Unopened,
    {
        Stage::Unopened
    }

    /// The stage after the engine's header parse returned `status`.
    pub fn after_header(self, status: i32) -> (r: Result<Stage, DecodeError>)
        requires
            self == Stage::Unopened,
        ensures
            status == JPEG_HEADER_OK ==> r == Ok::<Stage, DecodeError>(Stage::HeaderParsed),
            status != JPEG_HEADER_OK ==> r == Err::<Stage, DecodeError>(DecodeError::Header(status)),
    {
        if status == JPEG_HEADER_OK {
            Ok(Stage::HeaderParsed)
        } else {
            Err(DecodeError::Header(status))
        }
    }

    /// The stage after the engine's start of decompression in `mode`
    /// returned `status`; zero means it refused.
    pub fn after_start(self, mode: OutputMode, status: i32) -> (r: Result<Stage, DecodeError>)
        requires
            self == Stage::HeaderParsed,
        ensures
            status != 0 ==> r == Ok::<Stage, DecodeError>(Stage::Started(mode)),
            status == 0 ==> r == Err::<Stage, DecodeError>(DecodeError::Start(status)),
    {
        if status != 0 {
            Ok(Stage::Started(mode))
        } else {
            Err(DecodeError::Start(status))
        }
    }

    /// Whether pixel data may be read in this stage.
    pub fn can_read(&self) -> (r: bool)
        ensures
            r == self.reads_allowed(),
    {
        match self {
            Stage::Started(_) => true,
            _ => false,
        }
    }

    /// Whether raw planes may be read in this stage.
    pub fn can_read_raw(&self) -> (r: bool)
        ensures
            r == (*self == Stage::Started(OutputMode::Raw)),
    {
        match self {
            Stage::Started(OutputMode::Raw) => true,
            _ => false,
        }
    }

    /// The stage after decompression is finished.
    pub fn finish(self) -> (r: Stage)
        requires
            self.reads_allowed(),
        ensures
            r == Stage::Finished,
    {
        Stage::Finished
    }
}

/// Each transition moves a session strictly forward, and once finished it
/// admits no further read.
pub proof fn lemma_lifecycle_one_way(s: Stage, mode: OutputMode)
    ensures
        s == Stage::Unopened ==> stage_rank(s) < stage_rank(Stage::HeaderParsed),
        s == Stage::HeaderParsed ==> stage_rank(s) < stage_rank(Stage::Started(mode)),
        s.reads_allowed() ==> stage_rank(s) < stage_rank(Stage::Finished),
        !Stage::Finished.reads_allowed(),
        s.reads_allowed() <==> stage_rank(s) == 2,
{
}

/// Whether the engine still owes output rows: fewer than the declared output
/// height have been produced.
pub fn more_pending(output_scanline: u32, output_height: u32) -> (r: bool)
    ensures
        r == (output_scanline < output_height),
{
    output_scanline < output_height
}

/// Length, in pixels, of the buffer that receives a whole interleaved image,
/// or `None` where it does not fit in memory.
pub fn scanline_buffer_len(width: usize, height: usize) -> (r: Option<usize>)
    ensures
        width * height <= usize::MAX ==> r == Some((width * height) as usize),
        width * height > usize::MAX ==> r is None,
{
    width.checked_mul(height)
}

/// Whether a pixel tuple of `pixel_bytes` bytes matches the components of the
/// negotiated output colorspace.
pub fn pixel_width_matches(out_color_space: ColorSpace, pixel_bytes: usize) -> (r: bool)
    ensures
        r == (components_of(out_color_space) == pixel_bytes),
{
    out_color_space.num_components() == pixel_bytes
}

/// What an interleaved read does next.
#[derive(Clone, Copy, Debug, PartialEq, Eq)]
pub enum ScanlineStep {
    /// Read the next scanline into the buffer at this pixel offset.
    Read(usize),
    /// Every declared row has been produced.
    Done,
}

/// The next step of an interleaved read into a buffer of `width × height`
/// pixels, with `output_scanline` rows produced so far.
pub fn next_scanline(width: usize, height: usize, output_scanline: u32) -> (r: ScanlineStep)
    requires
        width * height <= usize::MAX,
    ensures
        output_scanline < height ==> r == ScanlineStep::Read((width * output_scanline) as usize),
        output_scanline >= height ==> r == ScanlineStep::Done,
        r matches ScanlineStep::Read(off) ==> off + width <= width * height,
{
    if (output_scanline as usize) < height {
        proof {
            assert(width * output_scanline + width <= width * height) by (nonlinear_arith)
                requires output_scanline + 1 <= height;
        }
        ScanlineStep::Read(width * output_scanline as usize)
    } else {
        ScanlineStep::Done
    }
}

/// Whether an interleaved read may go on after a call produced `rows_read`
/// rows: a call that produces none, while rows are still owed, is a failure.
pub fn scanline_progress(rows_read: usize) -> (r: bool)
    ensures
        r == (rows_read > 0),
{
    rows_read > 0
}

/// Whether a raw read produced the full MCU row that it asked for.
pub fn raw_rows_complete(lines_read: usize, mcu_height: usize) -> (r: bool)
    ensures
        r == (lines_read == mcu_height),
{
    lines_read == mcu_height
}

} // verus!
