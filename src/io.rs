use std::collections::VecDeque;
use vstd::prelude::*;

use crate::instruction::InsData;
use crate::memory::Memory;

verus! {

/// Why an I/O operation failed.
#[derive(Debug, Clone, Copy, PartialEq, Eq, Structural)]
pub enum IoError {
    Other,
    NotFound,
    InvalidParams,
    InvalidData,
    BrokenPipe,
    PermissionDenied,
    BadFd,
    Empty,
}

pub type IoResult<T> = Result<T, IoError>;

/// Why an operation on a host file failed.
#[derive(Debug, Clone, Copy, PartialEq, Eq, Structural)]
pub enum FileError {
    Other,
    NotFound,
    InvalidParams,
    InvalidData,
    BrokenPipe,
    PermissionDenied,
}

pub type FileResult<T> = Result<T, FileError>;

/// Descriptors below this one are virtual streams; those from it on are
/// reserved for real files.
pub const NUM_VIO: u32 = 32;

/// The function code that writes one byte to a stream.
pub const WRITE_BYTE: u32 = 64;

/// The virtual streams as the contracts see them.
pub struct IoView {
    pub stdout: Seq<u8>,
    pub stderr: Seq<u8>,
    pub stdin: Seq<u8>,
}

impl IoView {
    /// The streams after the low byte of `v` was written to descriptor `fd`:
    /// 1 is standard output and 2 standard error; no real file is open, and
    /// every other descriptor is bad.
    pub open spec fn write_one(self, v: u32, fd: u32) -> IoResult<IoView> {
        if fd == 1 {
            Ok(IoView { stdout: self.stdout.push((v % 256) as u8), ..self })
        } else if fd == 2 {
            Ok(IoView { stderr: self.stderr.push((v % 256) as u8), ..self })
        } else if fd >= NUM_VIO {
            Err(IoError::NotFound)
        } else {
            Err(IoError::BadFd)
        }
    }

    /// What I/O operation `funct` on operands `d` returns, and the streams
    /// after it: writing a byte takes the byte from `s1` and the descriptor
    /// from `s2`, and returns 0.
    pub open spec fn io(self, funct: u32, d: InsData) -> (IoResult<u32>, IoView) {
        if funct == WRITE_BYTE {
            match self.write_one(d.s1, d.s2) {
                Ok(after) => (Ok(0u32), after),
                Err(e) => (Err(e), self),
            }
        } else {
            (Err(IoError::InvalidParams), self)
        }
    }
}

/// The virtual I/O streams of one machine.
pub struct IoHandler {
    stdout: VecDeque<u8>,
    stderr: VecDeque<u8>,
    stdin: VecDeque<u8>,
}

impl View for IoHandler {
    type V = IoView;

    closed spec fn view(&self) -> IoView {
        IoView { stdout: self.stdout@, stderr: self.stderr@, stdin: self.stdin@ }
    }
}

impl IoHandler {
    /// Empty streams.
    pub fn new() -> (r: Self)
        ensures
            r@ == (IoView { stdout: Seq::empty(), stderr: Seq::empty(), stdin: Seq::empty() }),
    {
        let stdout = VecDeque::new();
        let stderr = VecDeque::new();
        let stdin = VecDeque::new();
        IoHandler { stdin, stdout, stderr }
    }

    /// Performs I/O operation `funct` on operands `i`.
    pub fn io<M: Memory>(&mut self, funct: u32, i: InsData, _mem: &mut M) -> (r: IoResult<u32>)
        ensures
            (r, final(self)@) == old(self)@.io(funct, i),
            *final(_mem) == *old(_mem),
    {
        let fd = i.s2;
        if funct == WRITE_BYTE {
            match self.write_one(i.s1, fd) {
                Ok(()) => Ok(0),
                Err(e) => Err(e),
            }
        } else {
            Err(IoError::InvalidParams)
        }
    }

    fn write_one(&mut self, v: u32, fd: u32) -> (r: IoResult<()>)
        ensures
            match old(self)@.write_one(v, fd) {
                Ok(after) => r is Ok && final(self)@ == after,
                Err(e) => r == Err::<(), IoError>(e) && final(self)@ == old(self)@,
            },
    {
        let b = (v & 0xff) as u8;
        assert(v & 0xff == v % 256) by (bit_vector);
        if fd == 1 {
            self.stdout.push_back(b);
        } else if fd == 2 {
            self.stderr.push_back(b);
        } else if fd >= NUM_VIO {
            return Err(IoError::NotFound);
        } else {
            return Err(IoError::BadFd);
        }
        Ok(())
    }

    /// What was written to standard output so far.
    pub fn stdout(&self) -> (r: &VecDeque<u8>)
        ensures
            r@ == self@.stdout,
    {
        &self.stdout
    }

    /// What was written to standard error so far.
    pub fn stderr(&self) -> (r: &VecDeque<u8>)
        ensures
            r@ == self@.stderr,
    {
        &self.stderr
    }
}

} // verus!
