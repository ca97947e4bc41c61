//! Verified decision logic for a JPEG decompression session: component
//! strides, raw-plane row tables, marker selection, output-format choice and
//! the session's lifecycle. The decoding engine itself is driven by the
//! surrounding application, which hands plain values in and out.
use vstd::prelude::*;

pub mod colorspace;
pub mod component;
pub mod decimal;
pub mod marker;
pub mod raw_planes;
pub mod session;
