use vstd::prelude::*;

verus! {

/// Failure kinds of the conversion core.
///
/// `Decode` reports that an encoded byte sequence could not be parsed as a
/// supported raster image. `Shape` reports that a buffer's length is
/// inconsistent with the width/height/channel arithmetic a step needs
/// (a tensor whose length is not three samples per pixel, or a raw frame
/// whose length is not four bytes per pixel).
#[derive(Clone, Copy, Debug, PartialEq, Eq, Structural)]
pub enum ImageError {
    Decode,
    Shape,
}

} // verus!
