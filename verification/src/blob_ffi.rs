//! The argument checks and seek mapping of the blob-reader C interface.
use vstd::prelude::*;

use crate::text::{decimal, push_decimal};

verus! {

/// Error codes of the C interface that these checks produce.
#[derive(Debug, Clone, Copy, PartialEq, Eq, Structural)]
pub enum PaimonErrorCode {
    /// An argument is invalid.
    InvalidInput,
}

/// An error of the C interface: its code and message.
#[derive(Debug)]
pub struct FfiError {
    pub code: PaimonErrorCode,
    pub message: String,
}

/// Where a seek in a blob stream is measured from.
#[derive(Debug, Clone, Copy, PartialEq, Eq, Structural)]
pub enum SeekTarget {
    /// This many bytes from the start.
    Start(u64),
    /// This many bytes from the current position.
    Current(i64),
    /// This many bytes from the end.
    End(i64),
}

/// `e` is an `InvalidInput` error with message `message`.
pub open spec fn invalid_input(e: FfiError, message: Seq<char>) -> bool {
    e.code == PaimonErrorCode::InvalidInput && e.message@ == message
}

/// Maps a C seek request, with `whence` 0 (start), 1 (current) or 2 (end), to its
/// target. A negative offset from the start, or another `whence`, is refused.
pub fn seek_target(offset: i64, whence: i32) -> (res: Result<SeekTarget, FfiError>)
    ensures
        if whence == 0 && offset >= 0 {
            res == Ok::<SeekTarget, FfiError>(SeekTarget::Start(offset as u64))
        } else if whence == 1 {
            res == Ok::<SeekTarget, FfiError>(SeekTarget::Current(offset))
        } else if whence == 2 {
            res == Ok::<SeekTarget, FfiError>(SeekTarget::End(offset))
        } else {
            res matches Err(e) && invalid_input(e, "invalid blob stream seek"@)
        },
{
    if whence == 0 && offset >= 0 {
        Ok(SeekTarget::Start(offset as u64))
    } else if whence == 1 {
        Ok(SeekTarget::Current(offset))
    } else if whence == 2 {
        Ok(SeekTarget::End(offset))
    } else {
        Err(FfiError { code: PaimonErrorCode::InvalidInput, message: String::from_str("invalid blob stream seek") })
    }
}

/// Checks a pointer-and-length argument named `name`: a null pointer is accepted
/// only for zero length.
pub fn check_slice_arg(len: usize, is_null: bool, name: &str) -> (res: Result<(), FfiError>)
    ensures
        if len > 0 && is_null {
            res matches Err(e) && invalid_input(e, "null pointer passed for `"@ + name@ + "`"@)
        } else {
            res is Ok
        },
{
    if len > 0 && is_null {
        let mut message = String::from_str("null pointer passed for `");
        message.append(name);
        message.append("`");
        Err(FfiError { code: PaimonErrorCode::InvalidInput, message })
    } else {
        Ok(())
    }
}

/// Whether a descriptor of this length and nullness cannot be read.
pub open spec fn bad_descriptor(d: (usize, bool)) -> bool {
    d.0 > 0 && d.1
}

/// Checks the blob descriptors, each given by its length and whether its data
/// pointer is null: the first one with a null pointer and a nonzero length is
/// refused, naming its index.
pub fn check_descriptors(descriptors: &Vec<(usize, bool)>) -> (res: Result<(), FfiError>)
    ensures
        res is Ok <==> forall|i: int| 0 <= i < descriptors@.len() ==> !bad_descriptor(#[trigger] descriptors@[i]),
        res matches Err(e) ==> exists|k: int| {
            &&& 0 <= k < descriptors@.len()
            &&& bad_descriptor(descriptors@[k])
            &&& forall|i: int| 0 <= i < k ==> !bad_descriptor(#[trigger] descriptors@[i])
            &&& invalid_input(e, "null data pointer for BlobDescriptor input index "@ + decimal(k as nat)
                + ", URI unavailable"@)
        },
{
    let mut i: usize = 0;
    while i < descriptors.len()
        invariant
            i <= descriptors@.len(),
            forall|j: int| 0 <= j < i ==> !bad_descriptor(#[trigger] descriptors@[j]),
        decreases descriptors@.len() - i,
    {
        let (len, is_null) = descriptors[i];
        if len > 0 && is_null {
            let mut message = String::from_str("null data pointer for BlobDescriptor input index ");
            push_decimal(&mut message, i as u64);
            message.append(", URI unavailable");
            let e = FfiError { code: PaimonErrorCode::InvalidInput, message };
            assert(bad_descriptor(descriptors@[i as int]));
            return Err(e);
        }
        i = i + 1;
    }
    Ok(())
}

} // verus!
