//! # CDFS
//!
//! This module decides what may be asked of the GD-ROM drive and what the
//! drive's answers mean. The drive itself is driven by the caller: a read is
//! first turned into a [`ReadRequest`], the caller hands the request to the
//! drive, and the drive's answer is turned into a [`DataChunk`].
//!
//! ## Usage
//!
//! ```text
//! if let CdfsResult::Okay(file) = Cdfs::opened(descriptor) {
//!     if let CdfsResult::Okay(request) = file.read(DATA_CHUNK_MAX_SIZE) {
//!         // hand `request.fd()` and `request.nbytes()` to the drive, then:
//!         if let CdfsResult::Okay(data) = request.complete(buffer, read_bytes) {
//!             // Do something with your data
//!         }
//!     }
//!
//!     let descriptor = file.close();
//! }
//! ```

use vstd::prelude::*;
use crate::util::types::Error;

verus! {

/// The maximum size of data that can be read from disc at a time.
pub const DATA_CHUNK_MAX_SIZE: usize = 1024;

/// Opens a file from disc as read-only.
pub const O_RDONLY: i32 = 0;

/// Opens as a directory.
pub const O_DIR: i32 = 4;

/// Used to seek to an exact offset.
pub const SEEK_SET: i32 = 0;

/// Used to seek from the current offset of the file.
pub const SEEK_CUR: i32 = 1;

/// Used to seek from the end of the file.
pub const SEEK_END: i32 = 2;

/// Encapsulates the response of a disc operation.
#[derive(Debug)]
pub enum CdfsResult<T> {
    /// The operation went through.
    Okay(T),
    /// The operation was turned down or failed.
    Error(Error),
}

/// Encapsulates the response given when reading data from disc.
pub type DataReadResult = CdfsResult<DataChunk>;

/// Encapsulates the response given when opening a file on disc.
pub type CdfsOpenResult = CdfsResult<CdfsFile>;

/// Whether a byte count reported by the drive stands for a successful read:
/// at least one byte, and no more than a chunk can hold.
pub open spec fn read_delivered(read_bytes: i32) -> bool {
    0 < read_bytes <= DATA_CHUNK_MAX_SIZE
}

/// Represents a chunk of data read from a disc.
#[derive(Debug)]
pub struct DataChunk {
    data: [u8; DATA_CHUNK_MAX_SIZE],
    size: usize,
}

impl View for DataChunk {
    type V = Seq<u8>;

    /// The bytes that were read, in order.
    closed spec fn view(&self) -> Seq<u8> {
        self.data@.subrange(0, self.size as int)
    }
}

impl DataChunk {
    #[verifier::type_invariant]
    spec fn size_fits(&self) -> bool {
        self.size <= DATA_CHUNK_MAX_SIZE
    }

    /// The whole buffer behind the chunk, including what lies past the data
    /// that was read.
    pub closed spec fn buffer(&self) -> Seq<u8> {
        self.data@
    }

    /// The number of bytes that were read into the buffer.
    pub closed spec fn size(&self) -> nat {
        self.size as nat
    }

    /// What [`DataChunk::get_byte`] yields at `index`: the buffer's byte there
    /// as long as `index` does not exceed the size of the data and lies inside
    /// the buffer, and zero everywhere else.
    pub open spec fn byte_at(&self, index: int) -> u8 {
        if 0 <= index <= self.size() && index < DATA_CHUNK_MAX_SIZE {
            self.buffer()[index]
        } else {
            0
        }
    }

    /// Returns the actual size of the data in the buffer.
    pub fn actual_size(&self) -> (size: usize)
        ensures
            size == self.size(),
            size == self@.len(),
            size <= DATA_CHUNK_MAX_SIZE,
    {
        proof {
            use_type_invariant(self);
        }
        self.size
    }

    /// Returns the max size of this buffer.
    pub fn max_size(&self) -> (size: usize)
        ensures
            size == DATA_CHUNK_MAX_SIZE,
            size == self.buffer().len(),
    {
        DATA_CHUNK_MAX_SIZE
    }

    /// Retrieves a single byte from this data chunk. This will always return
    /// zero if the `index` exceeds `size`.
    ///
    /// # Arguments
    /// * `index` - The index of the byte in the buffer
    ///
    /// # Returns
    /// The value of the byte at the location in the buffer. This will return 0 if the `index`
    /// is greater than the actual size of the read buffer, or lies outside the buffer.
    pub fn get_byte(&self, index: usize) -> (byte: u8)
        ensures
            byte == self.byte_at(index as int),
            index < self@.len() ==> byte == self@[index as int],
    {
        proof {
            use_type_invariant(self);
        }
        if index > self.size || index >= DATA_CHUNK_MAX_SIZE {
            return 0;
        }
        self.data[index]
    }

    /// Retrieves a single byte from this data chunk as a character. This will always return
    /// zero if the `index` exceeds `size`.
    ///
    /// # Arguments
    /// * `index` - The index of the character in the buffer
    ///
    /// # Returns
    /// The value of the character at the location in the buffer. This will return 0 if the `index`
    /// is greater than the actual size of the read buffer, or lies outside the buffer.
    pub fn get_char(&self, index: usize) -> (character: char)
        ensures
            character == self.byte_at(index as int) as char,
    {
        self.get_byte(index) as char
    }
}

/// A read that has been cleared to go to the drive.
#[derive(Debug)]
pub struct ReadRequest {
    fd: i32,
    nbytes: u32,
}

impl ReadRequest {
    #[verifier::type_invariant]
    spec fn fits_chunk(&self) -> bool {
        self.nbytes <= DATA_CHUNK_MAX_SIZE
    }

    /// The descriptor of the file to read from.
    pub closed spec fn descriptor(&self) -> i32 {
        self.fd
    }

    /// The number of bytes to ask the drive for.
    pub closed spec fn length(&self) -> nat {
        self.nbytes as nat
    }

    /// Returns the descriptor of the file to read from.
    pub fn fd(&self) -> (fd: i32)
        ensures
            fd == self.descriptor(),
    {
        self.fd
    }

    /// Returns the number of bytes to ask the drive for, which never exceeds
    /// [`DATA_CHUNK_MAX_SIZE`].
    pub fn nbytes(&self) -> (nbytes: u32)
        ensures
            nbytes == self.length(),
            nbytes <= DATA_CHUNK_MAX_SIZE,
    {
        proof {
            use_type_invariant(self);
        }
        self.nbytes
    }

    /// Turns the drive's answer to this request into a [`DataChunk`].
    ///
    /// # Arguments
    /// * `buffer` - The buffer the drive was given to fill.
    /// * `read_bytes` - The byte count the drive reported.
    ///
    /// # Returns
    /// [`CdfsResult::Okay`] containing the [`DataChunk`] when the drive delivered
    /// between one byte and a whole chunk, [`Error::IoFailure`] otherwise.
    pub fn complete(self, buffer: [u8; DATA_CHUNK_MAX_SIZE], read_bytes: i32) -> (result:
        DataReadResult)
        ensures
            read_delivered(read_bytes) ==> (result matches CdfsResult::Okay(chunk)
                && chunk.buffer() == buffer@
                && chunk.size() == read_bytes
                && chunk@ == buffer@.subrange(0, read_bytes as int)),
            !read_delivered(read_bytes) ==> result == DataReadResult::Error(Error::IoFailure),
    {
        // Make sure that we actually received some data back from CDFS
        if read_bytes <= 0 {
            return DataReadResult::Error(Error::IoFailure);
        }
        let size: usize = read_bytes as usize;
        if size > DATA_CHUNK_MAX_SIZE {
            return DataReadResult::Error(Error::IoFailure);
        }
        DataReadResult::Okay(DataChunk { data: buffer, size })
    }
}

/// Represents a currently open file from the disc.
#[derive(Debug)]
pub struct CdfsFile {
    fd: i32,
}

impl CdfsFile {
    /// The descriptor the drive knows this file by.
    pub closed spec fn descriptor(&self) -> i32 {
        self.fd
    }

    /// Returns the descriptor the drive knows this file by.
    pub fn fd(&self) -> (fd: i32)
        ensures
            fd == self.descriptor(),
    {
        self.fd
    }

    /// Clears a read of the desired amount of bytes from this file.
    ///
    /// # Arguments
    /// * `nbytes` - The number of bytes to read. Can be a maximum of [DATA_CHUNK_MAX_SIZE].
    ///
    /// # Returns
    /// [`CdfsResult::Okay`] containing the [`ReadRequest`] to hand to the drive, or
    /// [`Error::ReadTooLarge`] when more than a chunk is asked for. In that case no request
    /// exists, so nothing can reach the drive.
    pub fn read(&self, nbytes: usize) -> (result: CdfsResult<ReadRequest>)
        ensures
            nbytes <= DATA_CHUNK_MAX_SIZE ==> (result matches CdfsResult::Okay(request)
                && request.descriptor() == self.descriptor()
                && request.length() == nbytes),
            nbytes > DATA_CHUNK_MAX_SIZE ==> result == CdfsResult::<ReadRequest>::Error(
                Error::ReadTooLarge,
            ),
    {
        // Make sure the user is not requesting more than is possible
        if nbytes > DATA_CHUNK_MAX_SIZE {
            return CdfsResult::Error(Error::ReadTooLarge);
        }
        CdfsResult::Okay(ReadRequest { fd: self.fd, nbytes: nbytes as u32 })
    }

    /// Closes the file while also consuming the variable so it can no longer be used.
    ///
    /// # Returns
    /// The descriptor to release on the drive.
    pub fn close(self) -> (fd: i32)
        ensures
            fd == self.descriptor(),
    {
        self.fd
    }
}

/// Entry point to the files on the disc.
#[derive(Debug)]
pub struct Cdfs {}

impl Cdfs {
    /// Interprets the drive's answer to a request to open a file.
    ///
    /// # Arguments
    /// * `fd` - The descriptor, or negative failure code, that the drive returned.
    ///
    /// # Returns
    /// [`CdfsResult::Okay`] containing the [`CdfsFile`] on successful open,
    /// [`Error::IoFailure`] otherwise.
    pub fn opened(fd: i32) -> (result: CdfsOpenResult)
        ensures
            fd >= 0 ==> (result matches CdfsResult::Okay(file) && file.descriptor() == fd),
            fd < 0 ==> result == CdfsOpenResult::Error(Error::IoFailure),
    {
        if fd < 0 {
            return CdfsOpenResult::Error(Error::IoFailure);
        }
        CdfsOpenResult::Okay(CdfsFile { fd })
    }
}

} // verus!
