//! The message channel to the co-processor, as the engine sees it: a
//! pollable descriptor, and the checks that turn what the system's read and
//! write calls returned into a result.

use vstd::prelude::*;

verus! {

/// Why the channel failed.
#[derive(Clone, Copy, Debug, PartialEq, Eq, Structural)]
pub enum TransportError {
    /// The endpoint could not be opened.
    Open,
    /// The system call failed.
    Io,
    /// Fewer bytes arrived than the smallest frame holds.
    ShortRead,
    /// The frame filled the whole buffer and may have been cut.
    BufferTooSmall,
    /// Not every byte was written.
    IncompleteWrite,
}

/// The smallest frame: a key and a one-byte value.
pub const MIN_FRAME_LEN: usize = 2;

/// The largest frame the co-processor sends fits in a buffer of this size.
pub const FRAME_CAPACITY: usize = 256;

/// An open channel, known by its readiness descriptor.
#[derive(Clone, Copy, Debug, PartialEq, Eq, Structural)]
pub struct TiRpmsg {
    fd: i32,
}

pub open spec fn read_outcome(capacity: usize, count: isize) -> Result<usize, TransportError> {
    if count < 0 {
        Err(TransportError::Io)
    } else if count as int >= capacity as int {
        Err(TransportError::BufferTooSmall)
    } else if (count as int) < MIN_FRAME_LEN as int {
        Err(TransportError::ShortRead)
    } else {
        Ok(count as usize)
    }
}

pub open spec fn write_outcome(len: usize, count: isize) -> Result<(), TransportError> {
    if count < 0 {
        Err(TransportError::Io)
    } else if count as int != len as int {
        Err(TransportError::IncompleteWrite)
    } else {
        Ok(())
    }
}

impl TiRpmsg {
    #[verifier::type_invariant]
    spec fn inv(&self) -> bool {
        self.fd >= 0
    }

    pub closed spec fn fd_spec(&self) -> i32 {
        self.fd
    }

    /// The channel behind descriptor `fd`, as an open call returned it; a
    /// negative value means the open failed.
    pub fn new(fd: i32) -> (r: Result<TiRpmsg, TransportError>)
        ensures
            fd >= 0 ==> (r matches Ok(c) && c.fd_spec() == fd),
            fd < 0 ==> r == Err::<TiRpmsg, TransportError>(TransportError::Open),
    {
        if fd < 0 {
            Err(TransportError::Open)
        } else {
            Ok(TiRpmsg { fd })
        }
    }

    /// The descriptor to poll for readability.
    pub fn get_fd(&self) -> (r: i32)
        ensures
            r == self.fd_spec(),
            r >= 0,
    {
        proof {
            use_type_invariant(self);
        }
        self.fd
    }

    /// The result of writing a frame of `len` bytes, from the count the
    /// write call returned.
    pub fn write(&self, len: usize, count: isize) -> (r: Result<(), TransportError>)
        ensures
            r == write_outcome(len, count),
    {
        if count < 0 {
            Err(TransportError::Io)
        } else if count as usize != len {
            Err(TransportError::IncompleteWrite)
        } else {
            Ok(())
        }
    }

    /// The length of the frame read into a buffer of `capacity` bytes, from
    /// the count the read call returned.
    pub fn read(&self, capacity: usize, count: isize) -> (r: Result<usize, TransportError>)
        ensures
            r == read_outcome(capacity, count),
    {
        if count < 0 {
            Err(TransportError::Io)
        } else if count as usize >= capacity {
            Err(TransportError::BufferTooSmall)
        } else if (count as usize) < MIN_FRAME_LEN {
            Err(TransportError::ShortRead)
        } else {
            Ok(count as usize)
        }
    }
}

} // verus!
