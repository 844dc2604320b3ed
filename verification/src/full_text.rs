//! Ranged reads behind a full-text index: which byte ranges a batch of read
//! requests asks for, and how the bytes read back fill the requests' buffers.
use vstd::prelude::*;

use crate::error::Error;
use crate::text::{decimal, push_decimal};

verus! {

/// At most this many ranges of one batch are read at the same time.
pub const FULL_TEXT_RANGE_READ_CONCURRENCY: usize = 8;

/// The kind of a failed ranged read.
#[derive(Debug, Clone, Copy, PartialEq, Eq, Structural)]
pub enum ReadErrorKind {
    /// A request cannot be turned into a byte range.
    InvalidInput,
    /// A read gave fewer (or more) bytes than its buffer holds.
    UnexpectedEof,
    /// The underlying read failed.
    Other,
}

/// A failed ranged read: its kind and message.
#[derive(Debug)]
pub struct ReadError {
    pub kind: ReadErrorKind,
    pub message: String,
}

/// The half-open byte range `start..end` of one read.
#[derive(Debug, Clone, Copy, PartialEq, Eq, Structural)]
pub struct ReadRange {
    pub start: u64,
    pub end: u64,
}

impl ReadRange {
    /// Whether the range holds no byte, so that nothing has to be read for it.
    pub fn is_empty(&self) -> (res: bool)
        ensures
            res == (self.start == self.end),
    {
        self.start == self.end
    }
}

/// Whether the request at `pos` for `len` bytes ends past the last `u64` offset.
pub open spec fn range_overflows(req: (u64, usize)) -> bool {
    req.0 + req.1 > u64::MAX
}

/// Turns read requests, each a position and a buffer length, into the byte ranges
/// to read, in the requests' order. A request whose range would end past the last
/// `u64` offset is refused with `InvalidInput`.
pub fn plan_read_ranges(requests: &Vec<(u64, usize)>) -> (res: Result<Vec<ReadRange>, ReadError>)
    ensures
        res is Ok <==> forall|i: int| 0 <= i < requests@.len() ==> !range_overflows(#[trigger] requests@[i]),
        match res {
            Ok(ranges) => {
                &&& ranges@.len() == requests@.len()
                &&& forall|i: int| 0 <= i < requests@.len() ==> {
                    &&& (#[trigger] ranges@[i]).start == requests@[i].0
                    &&& ranges@[i].end == requests@[i].0 + requests@[i].1
                }
            },
            Err(e) => e.kind == ReadErrorKind::InvalidInput && e.message@ == "full-text read range overflow"@,
        },
{
    let mut ranges: Vec<ReadRange> = Vec::new();
    let mut i: usize = 0;
    while i < requests.len()
        invariant
            i <= requests@.len(),
            ranges@.len() == i,
            forall|j: int| 0 <= j < i ==> !range_overflows(#[trigger] requests@[j]),
            forall|j: int| 0 <= j < i ==> {
                &&& (#[trigger] ranges@[j]).start == requests@[j].0
                &&& ranges@[j].end == requests@[j].0 + requests@[j].1
            },
        decreases requests@.len() - i,
    {
        let (pos, len) = requests[i];
        let length: u64 = len as u64;
        if pos > u64::MAX - length {
            assert(range_overflows(requests@[i as int]));
            return Err(ReadError {
                kind: ReadErrorKind::InvalidInput,
                message: String::from_str("full-text read range overflow"),
            });
        }
        ranges.push(ReadRange { start: pos, end: pos + length });
        i = i + 1;
    }
    Ok(ranges)
}

/// Whether `r` is a successful read of exactly `len` bytes.
pub open spec fn read_fits(len: nat, r: Result<Vec<u8>, String>) -> bool {
    r matches Ok(bytes) && bytes@.len() == len
}

/// The bytes of a read that did not fail.
pub open spec fn read_bytes(r: Result<Vec<u8>, String>) -> Seq<u8> {
    match r {
        Ok(bytes) => bytes@,
        Err(_) => Seq::empty(),
    }
}

/// The error that the read `r` into a buffer of `len` bytes fails with.
pub open spec fn read_failure(len: nat, r: Result<Vec<u8>, String>, e: ReadError) -> bool {
    match r {
        Err(msg) => e.kind == ReadErrorKind::Other && e.message@ == msg@,
        Ok(bytes) => e.kind == ReadErrorKind::UnexpectedEof && e.message@ == "full-text read expected "@
            + decimal(len) + " bytes, got "@ + decimal(bytes@.len()),
    }
}

/// Fills each buffer with the bytes read for it, in order, pairing the `i`th
/// buffer with the `i`th result as far as both lists go. The first result that
/// failed, or that does not hold exactly as many bytes as its buffer, stops the
/// filling with its error; the buffers before it are filled and the others keep
/// their contents.
pub fn fill_read_buffers(buffers: &mut Vec<Vec<u8>>, results: Vec<Result<Vec<u8>, String>>) -> (res: Result<(), ReadError>)
    ensures
        final(buffers)@.len() == old(buffers)@.len(),
        ({
            let n = if old(buffers)@.len() <= results@.len() { old(buffers)@.len() } else { results@.len() };
            match res {
                Ok(()) => {
                    &&& forall|i: int| 0 <= i < n ==> read_fits(old(buffers)@[i]@.len(), #[trigger] results@[i])
                    &&& forall|i: int| 0 <= i < n ==> (#[trigger] final(buffers)@[i])@ == read_bytes(results@[i])
                    &&& forall|i: int| n <= i < old(buffers)@.len() ==> #[trigger] final(buffers)@[i] == old(buffers)@[i]
                },
                Err(e) => exists|k: int| {
                    &&& 0 <= k < n
                    &&& forall|i: int| 0 <= i < k ==> read_fits(old(buffers)@[i]@.len(), #[trigger] results@[i])
                    &&& !read_fits(old(buffers)@[k]@.len(), results@[k])
                    &&& read_failure(old(buffers)@[k]@.len(), results@[k], e)
                    &&& forall|i: int| 0 <= i < k ==> (#[trigger] final(buffers)@[i])@ == read_bytes(results@[i])
                    &&& forall|i: int| k <= i < old(buffers)@.len() ==> #[trigger] final(buffers)@[i] == old(buffers)@[i]
                },
            }
        }),
{
    let n: usize = if buffers.len() <= results.len() { buffers.len() } else { results.len() };
    let mut i: usize = 0;
    while i < n
        invariant
            n == (if old(buffers)@.len() <= results@.len() { old(buffers)@.len() } else { results@.len() }),
            i <= n,
            buffers@.len() == old(buffers)@.len(),
            forall|j: int| 0 <= j < i ==> read_fits(old(buffers)@[j]@.len(), #[trigger] results@[j]),
            forall|j: int| 0 <= j < i ==> (#[trigger] buffers@[j])@ == read_bytes(results@[j]),
            forall|j: int| i <= j < old(buffers)@.len() ==> #[trigger] buffers@[j] == old(buffers)@[j],
        decreases n - i,
    {
        let expected = buffers[i].len();
        match &results[i] {
            Err(msg) => {
                let e = ReadError { kind: ReadErrorKind::Other, message: msg.clone() };
                assert(read_failure(old(buffers)@[i as int]@.len(), results@[i as int], e));
                return Err(e);
            },
            Ok(bytes) => {
                if bytes.len() != expected {
                    let mut message = String::from_str("full-text read expected ");
                    push_decimal(&mut message, expected as u64);
                    message.append(" bytes, got ");
                    push_decimal(&mut message, bytes.len() as u64);
                    let e = ReadError { kind: ReadErrorKind::UnexpectedEof, message };
                    assert(read_failure(old(buffers)@[i as int]@.len(), results@[i as int], e));
                    return Err(e);
                }
                let copy = bytes.clone();
                assert(copy@ =~= bytes@);
                buffers.set(i, copy);
            },
        }
        i = i + 1;
    }
    Ok(())
}

/// The error for a full-text index file that the native reader cannot read.
pub fn native_error(file_name: &str, error: &str) -> (res: Error)
    ensures
        res matches Error::UnexpectedError { message }
            && message@ == "Failed to read full-text index '"@ + file_name@ + "': "@ + error@,
{
    let mut message = String::from_str("Failed to read full-text index '");
    message.append(file_name);
    message.append("': ");
    message.append(error);
    Error::UnexpectedError { message }
}

/// The error for a full-text search task that did not run to its end.
pub fn search_task_error(file_name: &str, error: &str) -> (res: Error)
    ensures
        res matches Error::UnexpectedError { message }
            && message@ == "Full-text index task for '"@ + file_name@ + "' failed: "@ + error@,
{
    let mut message = String::from_str("Full-text index task for '");
    message.append(file_name);
    message.append("' failed: ");
    message.append(error);
    Error::UnexpectedError { message }
}

} // verus!
