//! Crash-safe storage of one logical byte stream in two alternating slot files.
//!
//! Each slot holds a generation byte, the payload and a CRC-32 trailer. Opening a
//! logical file classifies both slots; reading picks the newest valid one, and
//! writing overwrites the other, so an interrupted write never destroys the last
//! complete generation.
//!
//! This crate holds the decisions and the byte-level format: it does no file I/O
//! itself. A caller reads slot bytes, feeds them to a [`SlotProbe`], hands the
//! outcome to [`BufferedFile::new`], and then follows the plan that
//! [`BufferedFile::read`] or [`BufferedFile::write`] returns.

pub mod buffered_file;
pub mod checksum;
pub mod ffi;
pub mod format;
pub mod generation;
pub mod probe;
pub mod reader;
pub mod writer;

pub use buffered_file::{BufferedFile, BufferedFileErrors, BUFFER_COUNT};
pub use checksum::{ChecksumEngine, ChecksumStream};
pub use ffi::{check_transfer, Error, ErrorCode, MAX_TRANSFER_LEN};
pub use format::{from_le_bytes, to_le_bytes, HEADER_LEN, MIN_SLOT_LEN, TRAILER_LEN};
pub use generation::{wrapping_cmp, Generation};
pub use probe::SlotProbe;
pub use reader::{BufferedFileReader, SeekFrom};
pub use writer::BufferedFileWriter;
