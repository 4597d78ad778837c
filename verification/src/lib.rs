//! A typed layer over a GPIB (IEEE-488) instrument-control driver.
//!
//! The native driver speaks a C-style convention: an open call hands back an
//! integer descriptor (with a sentinel value for failure), write and read
//! calls hand back a status word whose high bit flags an error, and
//! thread-local registers hold the last error code and the last transfer
//! count, valid only immediately after the call that set them. This crate
//! holds the verified half of the adaptation: encoding an end-of-string
//! termination policy into the driver's bitmask, biasing the optional
//! secondary address, and deciding from each raw driver answer which register
//! to query next and which typed result to return. The driver calls
//! themselves are foreign I/O and live with the unverified glue around this
//! library.

mod device;
mod eos;

pub use device::encode_sad;
pub use device::lemma_error_bit_decides_failure;
pub use device::lemma_failed_open_never_a_device;
pub use device::lemma_success_query_discipline;
pub use device::spec_error_bit;
pub use device::spec_open_step;
pub use device::spec_read_step;
pub use device::spec_sad;
pub use device::spec_write_step;
pub use device::Device;
pub use device::Error;
pub use device::OpenRequest;
pub use device::OpenStep;
pub use device::ReadStep;
pub use device::WriteStep;
pub use device::ERR;
pub use device::INVALID_DESCRIPTOR;
pub use device::SAD_OFFSET;
pub use eos::spec_eos_encode;
pub use eos::spec_eos_mode;
pub use eos::spec_flag_bits;
pub use eos::EoS;
pub use eos::EoSModeFlags;
pub use eos::BIN;
pub use eos::REOS;
pub use eos::XEOS;
