//! Dimension probing: the width and height of an image, read from the
//! container's header without decoding pixels where the codec allows it.

use vstd::prelude::*;
use crate::codec::probe_size;
use crate::codec::probed;
use crate::error::report;
use crate::error::ErrorKind;
use crate::error::ProcessError;

verus! {

/// The width and height, in pixels, of the image in the file at `path`,
/// given what reading the file gave: its bytes, or the text of the failure.
///
/// - A failed read is an `Open` error that carries the failure's text.
/// - Bytes in which the header reader finds no size are a `DimensionRead`
///   error that carries the reader's wording.
/// - Otherwise the result is the size that the header reader finds, which
///   for bytes that decode is the size of the decoded image (see
///   `decode_image`).
pub fn get_image_dimensions(path: &str, read: Result<Vec<u8>, String>) -> (r: Result<
    (u32, u32),
    ProcessError,
>)
    ensures
        match read {
            Err(cause) => r matches Err(e) && e.kind == ErrorKind::Open && e.path@ == path@
                && e.cause@ == cause@,
            Ok(data) => match probed(data@) {
                Ok(size) => r == Ok::<(u32, u32), ProcessError>(size),
                Err(text) => r matches Err(e) && e.kind == ErrorKind::DimensionRead && e.path@
                    == path@ && e.cause@ == text,
            },
        },
{
    let data = report(ErrorKind::Open, path, read)?;
    report(ErrorKind::DimensionRead, path, probe_size(data.as_slice()))
}

} // verus!
