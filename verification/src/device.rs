//! Device lifecycle and the decision half of each driver operation.
//!
//! The driver answers an open call with an integer descriptor (a sentinel
//! value means failure), and answers write and read calls with a status word
//! whose high bit flags an error. Its last-error and last-transfer-count
//! registers are valid only immediately after the call that set them, so each
//! operation here is split at the driver boundary: one verified function
//! turns the call's inputs into the exact parameters to pass, one decides
//! from the raw answer which register to query next, and one turns the
//! queried register into the typed result. The unverified glue around the
//! library performs the calls in that order and nothing else.

use vstd::prelude::*;

use crate::eos::spec_eos_mode;
use crate::eos::EoS;

verus! {

/// The driver's universal error bit: a status word with this bit set means
/// the call failed, whatever its other bits hold.
pub const ERR: i32 = 0x8000;

/// The descriptor value by which the driver signals a failed open.
pub const INVALID_DESCRIPTOR: i32 = -1;

/// The bias the driver adds to a real secondary address; zero is reserved
/// for "no secondary addressing".
pub const SAD_OFFSET: i32 = 0x60;

/// One failure kind per operation, each carrying the driver's last-error
/// code, an opaque integer meaningful only to the driver.
#[derive(Clone, Copy, Debug, PartialEq, Eq, Structural)]
pub enum Error {
    CreateFailed(i32),
    WriteFailed(i32),
    ReadFailed(i32),
}

impl Error {
    /// A short description of the failed operation.
    pub fn message(&self) -> (r: &'static str)
        ensures
            self is CreateFailed ==> r@ == "Failed to create device descriptor"@,
            self is WriteFailed ==> r@ == "Failed to write to device"@,
            self is ReadFailed ==> r@ == "Failed to read from device"@,
    {
        match self {
            Error::CreateFailed(_) => "Failed to create device descriptor",
            Error::WriteFailed(_) => "Failed to write to device",
            Error::ReadFailed(_) => "Failed to read from device",
        }
    }

    /// The driver's last-error code this error carries.
    pub fn code(&self) -> (r: i32)
        ensures
            *self matches Error::CreateFailed(c) ==> r == c,
            *self matches Error::WriteFailed(c) ==> r == c,
            *self matches Error::ReadFailed(c) ==> r == c,
    {
        match self {
            Error::CreateFailed(code) => *code,
            Error::WriteFailed(code) => *code,
            Error::ReadFailed(code) => *code,
        }
    }
}

/// A handle bound to one driver-assigned descriptor, obtained from a
/// successful open and never reassigned.
#[derive(Debug, PartialEq, Eq, Structural)]
pub struct Device {
    pub descriptor: i32,
}

/// The six parameters of the driver's open-device primitive, exactly as they
/// are to be passed.
#[derive(Clone, Copy, Debug, PartialEq, Eq, Structural)]
pub struct OpenRequest {
    pub board_index: i32,
    pub pad: i32,
    pub sad: i32,
    pub timo: i32,
    pub send_eoi: i32,
    pub eosmode: i32,
}

/// What to do after the driver answered an open call.
#[derive(Debug, PartialEq, Eq, Structural)]
pub enum OpenStep {
    /// The descriptor is valid: the device is open and usable.
    Opened(Device),
    /// The descriptor is the sentinel: query last-error at once and fail.
    QueryLastError,
}

/// What to do after the driver answered a write call.
#[derive(Clone, Copy, Debug, PartialEq, Eq, Structural)]
pub enum WriteStep {
    /// The driver accepted every byte; no further query is made.
    Accepted,
    /// The error bit is set: query last-error at once and fail.
    QueryLastError,
}

/// What to do after the driver answered a read call.
#[derive(Clone, Copy, Debug, PartialEq, Eq, Structural)]
pub enum ReadStep {
    /// The read succeeded: query last-transfer-count at once for the result.
    QueryTransferCount,
    /// The error bit is set: query last-error at once and fail.
    QueryLastError,
}

/// The driver's secondary-address convention: absent encodes to zero,
/// present to the address plus the driver's bias.
pub open spec fn spec_sad(sad: Option<i32>) -> int {
    match sad {
        Some(address) => address + SAD_OFFSET,
        None => 0,
    }
}

/// Whether a status word carries the driver's error bit.
pub open spec fn spec_error_bit(status: i32) -> bool {
    status & ERR != 0
}

/// The decision an open call makes from the returned descriptor.
pub open spec fn spec_open_step(descriptor: i32) -> OpenStep {
    if descriptor == INVALID_DESCRIPTOR {
        OpenStep::QueryLastError
    } else {
        OpenStep::Opened(Device { descriptor })
    }
}

/// The decision a write call makes from the returned status word.
pub open spec fn spec_write_step(status: i32) -> WriteStep {
    if spec_error_bit(status) {
        WriteStep::QueryLastError
    } else {
        WriteStep::Accepted
    }
}

/// The decision a read call makes from the returned status word.
pub open spec fn spec_read_step(status: i32) -> ReadStep {
    if spec_error_bit(status) {
        ReadStep::QueryLastError
    } else {
        ReadStep::QueryTransferCount
    }
}

/// Encode an optional secondary address for the driver.
pub fn encode_sad(sad: Option<i32>) -> (r: i32)
    requires
        sad matches Some(address) ==> address <= i32::MAX - SAD_OFFSET,
    ensures
        r == spec_sad(sad),
{
    match sad {
        Some(address) => address + SAD_OFFSET,
        None => 0,
    }
}

impl OpenRequest {
    /// Assemble the parameters of one open-device call: board index and
    /// primary address as given, the secondary address biased or zeroed, the
    /// timeout code as given, the EOI flag as zero or one, and the EOS
    /// policy encoded (or zero when there is none).
    pub fn new(
        board_index: i32,
        pad: i32,
        sad: Option<i32>,
        timo: i32,
        send_eoi: bool,
        eosmode: Option<EoS>,
    ) -> (r: OpenRequest)
        requires
            sad matches Some(address) ==> address <= i32::MAX - SAD_OFFSET,
        ensures
            r.board_index == board_index,
            r.pad == pad,
            r.sad == spec_sad(sad),
            r.timo == timo,
            r.send_eoi == (if send_eoi {
                1int
            } else {
                0int
            }),
            r.eosmode == spec_eos_mode(eosmode),
    {
        let sad_code: i32 = encode_sad(sad);
        let eos_code: i32 = match eosmode {
            Some(mode) => mode.encode(),
            None => 0,
        };
        let eoi_code: i32 = if send_eoi {
            1
        } else {
            0
        };
        OpenRequest {
            board_index,
            pad,
            sad: sad_code,
            timo,
            send_eoi: eoi_code,
            eosmode: eos_code,
        }
    }
}

impl Device {
    /// Decide the outcome of an open call from the descriptor the driver
    /// returned: the sentinel routes to the last-error query and never to a
    /// device; any other value is an open device bound to that descriptor.
    pub fn open_step(descriptor: i32) -> (r: OpenStep)
        ensures
            r == spec_open_step(descriptor),
    {
        if descriptor == INVALID_DESCRIPTOR {
            OpenStep::QueryLastError
        } else {
            OpenStep::Opened(Device { descriptor })
        }
    }

    /// The creation error for the code the last-error query returned after a
    /// failed open.
    pub fn open_failed(iberr: i32) -> (e: Error)
        ensures
            e == Error::CreateFailed(iberr),
    {
        Error::CreateFailed(iberr)
    }

    /// Decide the outcome of a write call from the status word the driver
    /// returned: the error bit routes to the last-error query; otherwise the
    /// write is complete and nothing further is queried.
    pub fn write_step(&self, status: i32) -> (r: WriteStep)
        ensures
            r == spec_write_step(status),
    {
        if status & ERR != 0 {
            WriteStep::QueryLastError
        } else {
            WriteStep::Accepted
        }
    }

    /// The write error for the code the last-error query returned after a
    /// failed write.
    pub fn write_failed(&self, iberr: i32) -> (e: Error)
        ensures
            e == Error::WriteFailed(iberr),
    {
        Error::WriteFailed(iberr)
    }

    /// Decide the outcome of a read call from the status word the driver
    /// returned: the error bit routes to the last-error query; otherwise the
    /// transfer count is queried for the result.
    pub fn read_step(&self, status: i32) -> (r: ReadStep)
        ensures
            r == spec_read_step(status),
    {
        if status & ERR != 0 {
            ReadStep::QueryLastError
        } else {
            ReadStep::QueryTransferCount
        }
    }

    /// Complete a successful read with the count the last-transfer-count
    /// query returned. The driver never fills more than the buffer's
    /// capacity, so a conforming count is demanded here; it is handed back
    /// exactly, and so never exceeds the capacity.
    pub fn read_received(&self, count: i32, capacity: usize) -> (r: Result<i32, Error>)
        requires
            0 <= count <= capacity,
        ensures
            r == Ok::<i32, Error>(count),
            r matches Ok(n) && 0 <= n <= capacity,
    {
        Ok(count)
    }

    /// The read error for the code the last-error query returned after a
    /// failed read.
    pub fn read_failed(&self, iberr: i32) -> (e: Error)
        ensures
            e == Error::ReadFailed(iberr),
    {
        Error::ReadFailed(iberr)
    }
}

/// An open that the driver answers with the sentinel descriptor is never a
/// success: it always routes to the last-error query, whose code the
/// creation error then carries.
pub proof fn lemma_failed_open_never_a_device(descriptor: i32)
    requires
        descriptor == INVALID_DESCRIPTOR,
    ensures
        spec_open_step(descriptor) == OpenStep::QueryLastError,
        spec_open_step(descriptor) !is Opened,
{
}

/// A status word with the error bit set always routes to the last-error
/// query — on write and on read alike — whatever its other bits hold; one
/// without it never does.
pub proof fn lemma_error_bit_decides_failure(status: i32)
    ensures
        spec_write_step(status) == WriteStep::QueryLastError <==> spec_error_bit(status),
        spec_read_step(status) == ReadStep::QueryLastError <==> spec_error_bit(status),
{
}

/// A write that succeeds makes no further driver query; a read that succeeds
/// always goes on to query the transfer count.
pub proof fn lemma_success_query_discipline(status: i32)
    requires
        !spec_error_bit(status),
    ensures
        spec_write_step(status) == WriteStep::Accepted,
        spec_read_step(status) == ReadStep::QueryTransferCount,
{
}

} // verus!
