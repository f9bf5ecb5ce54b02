//! The sallyport: a syscall proxy through a shared-memory block.
//!
//! A block is a run of bytes shared by guest and host. Its 48-byte header
//! holds six little-endian 64-bit words:
//!
//! | offset | word                                              |
//! |--------|---------------------------------------------------|
//! | 0      | kind: empty, request or response                  |
//! | 8      | operation: the Linux syscall number               |
//! | 16     | file descriptor                                   |
//! | 24     | offset of the data in the block                   |
//! | 32     | length of the data asked for or given             |
//! | 40     | result: a count, or a negated error number        |
//!
//! The payload follows. The guest writes a request, the host answers in the
//! same block, and the guest checks every offset and length of the answer
//! against the block before it reads anything: the host is not trusted.

use vstd::prelude::*;
use crate::wire::{
    le_bytes, from_le, overwrite, read_le, write_le, copy_into, copy_out, lemma_le_bytes_len,
};

verus! {

/// Size in bytes of a block's header.
pub const HEADER_SIZE: usize = 48;

pub const KIND_EMPTY: u64 = 0;
pub const KIND_REQUEST: u64 = 1;
pub const KIND_RESPONSE: u64 = 2;

pub const SYS_READ: u64 = 0;
pub const SYS_WRITE: u64 = 1;
pub const SYS_CLOSE: u64 = 3;

/// Bad address.
pub const EFAULT: i64 = 14;
/// Function not implemented.
pub const ENOSYS: i64 = 38;
/// The largest error number a result may carry.
pub const MAX_ERRNO: i64 = 4095;

pub const KIND_AT: usize = 0;
pub const OP_AT: usize = 8;
pub const FD_AT: usize = 16;
pub const PTR_AT: usize = 24;
pub const LEN_AT: usize = 32;
pub const RET_AT: usize = 40;

/// Why a guest-side call failed.
#[derive(Clone, Copy, Debug, PartialEq, Eq, Structural)]
pub enum SallyError {
    /// The platform or the host does not offer the operation.
    NotSupported,
    /// The host's answer is malformed or points outside the block.
    ProtocolViolation,
    /// No request of that kind is outstanding.
    NoRequest,
    /// The host's operation failed with this error number.
    Errno(i64),
}

/// The 64-bit word at byte `at` of a block.
pub open spec fn word(b: Seq<u8>, at: int) -> nat {
    from_le(b.subrange(at, at + 8))
}

/// The result word of a block, read as a signed number.
pub open spec fn ret_of(b: Seq<u8>) -> i64 {
    (word(b, RET_AT as int) as u64) as i64
}

/// A file descriptor as a header word.
pub open spec fn fd_word(fd: i32) -> u64 {
    (fd as u32) as u64
}

/// A header word as a file descriptor.
pub open spec fn word_fd(w: nat) -> i32 {
    ((w as u64) as u32) as i32
}

/// The header bytes with these six words.
pub open spec fn header(kind: u64, op: u64, fd: u64, ptr: u64, len: u64, ret: u64) -> Seq<u8> {
    le_bytes(kind as nat, 8) + le_bytes(op as nat, 8) + le_bytes(fd as nat, 8) + le_bytes(
        ptr as nat,
        8,
    ) + le_bytes(len as nat, 8) + le_bytes(ret as nat, 8)
}

/// The block `b` after the header words `kind` and `ret` are written.
pub open spec fn with_response(b: Seq<u8>, ret: i64) -> Seq<u8> {
    overwrite(
        overwrite(b, KIND_AT as int, le_bytes(KIND_RESPONSE as nat, 8)),
        RET_AT as int,
        le_bytes((ret as u64) as nat, 8),
    )
}

/// Whether `len` bytes at offset `ptr` lie in the payload of a block of
/// `size` bytes.
pub open spec fn in_payload(ptr: nat, len: nat, size: nat) -> bool {
    HEADER_SIZE <= ptr && ptr + len <= size
}

/// Checks a claimed range of `len` bytes at offset `ptr` against the payload
/// of a block of `size` bytes.
pub fn validate_slice(ptr: u64, len: u64, size: usize) -> (r: Result<(usize, usize), SallyError>)
    ensures
        in_payload(ptr as nat, len as nat, size as nat) ==> r == Ok::<(usize, usize), SallyError>(
            (ptr as usize, len as usize),
        ),
        !in_payload(ptr as nat, len as nat, size as nat) ==> r == Err::<(usize, usize), SallyError>(
            SallyError::ProtocolViolation,
        ),
{
    if ptr < HEADER_SIZE as u64 || ptr > size as u64 || len > size as u64 - ptr {
        Err(SallyError::ProtocolViolation)
    } else {
        Ok((ptr as usize, len as usize))
    }
}

fn read_word(b: &[u8], at: usize) -> (r: u64)
    requires
        at + 8 <= b@.len(),
    ensures
        r as nat == word(b@, at as int),
{
    read_le(b, at, 8)
}

/// Writes all six header words of `b`.
fn write_header(b: &mut Vec<u8>, kind: u64, op: u64, fd: u64, ptr: u64, len: u64, ret: u64)
    requires
        HEADER_SIZE <= old(b)@.len(),
    ensures
        final(b)@ == overwrite(old(b)@, 0, header(kind, op, fd, ptr, len, ret)),
{
    let ghost o = b@;
    proof {
        lemma_le_bytes_len(kind as nat, 8);
        lemma_le_bytes_len(op as nat, 8);
        lemma_le_bytes_len(fd as nat, 8);
        lemma_le_bytes_len(ptr as nat, 8);
        lemma_le_bytes_len(len as nat, 8);
        lemma_le_bytes_len(ret as nat, 8);
    }
    write_le(b, KIND_AT, kind);
    write_le(b, OP_AT, op);
    write_le(b, FD_AT, fd);
    write_le(b, PTR_AT, ptr);
    write_le(b, LEN_AT, len);
    write_le(b, RET_AT, ret);
    assert(b@ =~= overwrite(o, 0, header(kind, op, fd, ptr, len, ret)));
}

/// Writes the kind and result words of an answer into `b`.
fn write_response(b: &mut Vec<u8>, ret: i64)
    requires
        HEADER_SIZE <= old(b)@.len(),
    ensures
        final(b)@ == with_response(old(b)@, ret),
{
    write_le(b, KIND_AT, KIND_RESPONSE);
    write_le(b, RET_AT, ret as u64);
}

/// The operations the guest can ask of the host.
#[derive(Clone, Copy, Debug, PartialEq, Eq, Structural)]
pub enum Op {
    Read,
    Write,
    Close,
}

impl Op {
    pub open spec fn spec_code(self) -> u64 {
        match self {
            Op::Read => SYS_READ,
            Op::Write => SYS_WRITE,
            Op::Close => SYS_CLOSE,
        }
    }

    /// The syscall number of the operation.
    pub fn code(self) -> (r: u64)
        ensures
            r == self.spec_code(),
    {
        match self {
            Op::Read => SYS_READ,
            Op::Write => SYS_WRITE,
            Op::Close => SYS_CLOSE,
        }
    }
}

/// What the host's answer in `b` gives for a request `op` that asked for
/// `asked` bytes: the count, or why it fails.
pub open spec fn response_result(b: Seq<u8>, op: Op, asked: u64) -> Result<u64, SallyError> {
    let ret = ret_of(b);
    if word(b, KIND_AT as int) != KIND_RESPONSE || word(b, OP_AT as int) != op.spec_code() {
        Err(SallyError::ProtocolViolation)
    } else if ret < 0 {
        if ret < -MAX_ERRNO {
            Err(SallyError::ProtocolViolation)
        } else if -ret == ENOSYS {
            Err(SallyError::NotSupported)
        } else {
            Err(SallyError::Errno((-ret) as i64))
        }
    } else if ret > asked {
        Err(SallyError::ProtocolViolation)
    } else {
        Ok(ret as u64)
    }
}

/// The guest's side of a sallyport block.
pub struct Handler {
    /// The shared block.
    pub block: Vec<u8>,
    /// Whether the platform can hand a block to the host at all.
    pub capable: bool,
    /// The request outstanding, with the byte count it asked for.
    pub pending: Option<(Op, u64)>,
}

impl Handler {
    pub open spec fn wf(&self) -> bool {
        HEADER_SIZE < self.block@.len()
    }

    /// Bytes of payload in the block.
    pub open spec fn capacity(&self) -> nat {
        (self.block@.len() - HEADER_SIZE) as nat
    }

    /// A handler on `block`, with no request outstanding.
    pub fn new(block: Vec<u8>, capable: bool) -> (r: Handler)
        requires
            HEADER_SIZE < block@.len(),
        ensures
            r.wf(),
            r.block@ == block@,
            r.capable == capable,
            r.pending.is_none(),
    {
        Handler { block, capable, pending: None }
    }

    /// The bytes a request leaves in the block.
    pub open spec fn request_block(&self, op: Op, fd: i32, len: nat) -> Seq<u8> {
        overwrite(
            self.block@,
            0,
            header(KIND_REQUEST, op.spec_code(), fd_word(fd), HEADER_SIZE as u64, len as u64, 0),
        )
    }

    fn request(&mut self, op: Op, fd: i32, len: usize)
        requires
            old(self).wf(),
            len <= old(self).capacity(),
        ensures
            final(self).wf(),
            final(self).capable == old(self).capable,
            final(self).block@ == old(self).request_block(op, fd, len as nat),
            final(self).pending == Some((op, len as u64)),
    {
        proof {
            lemma_header_len(
                KIND_REQUEST,
                op.spec_code(),
                fd_word(fd),
                HEADER_SIZE as u64,
                len as u64,
                0,
            );
        }
        write_header(
            &mut self.block,
            KIND_REQUEST,
            op.code(),
            fd as u32 as u64,
            HEADER_SIZE as u64,
            len as u64,
            0,
        );
        self.pending = Some((op, len as u64));
    }

    /// Asks the host to read up to `len` bytes, no more than the payload
    /// holds, from `fd`. Without a capable platform nothing is sent.
    pub fn request_read(&mut self, fd: i32, len: usize) -> (r: Result<(), SallyError>)
        requires
            old(self).wf(),
        ensures
            final(self).wf(),
            final(self).capable == old(self).capable,
            !old(self).capable ==> r == Err::<(), SallyError>(SallyError::NotSupported)
                && final(self).block@ == old(self).block@ && final(self).pending == old(
                self,
            ).pending,
            old(self).capable ==> {
                let n = if len <= old(self).capacity() {
                    len as nat
                } else {
                    old(self).capacity()
                };
                &&& r == Ok::<(), SallyError>(())
                &&& final(self).block@ == old(self).request_block(Op::Read, fd, n)
                &&& final(self).pending == Some((Op::Read, n as u64))
            },
    {
        if !self.capable {
            return Err(SallyError::NotSupported);
        }
        let cap = self.block.len() - HEADER_SIZE;
        let n = if len <= cap {
            len
        } else {
            cap
        };
        self.request(Op::Read, fd, n);
        Ok(())
    }

    /// Asks the host to write `data`, no more of it than the payload holds,
    /// to `fd`. Without a capable platform nothing is sent.
    pub fn request_write(&mut self, fd: i32, data: &[u8]) -> (r: Result<(), SallyError>)
        requires
            old(self).wf(),
        ensures
            final(self).wf(),
            final(self).capable == old(self).capable,
            !old(self).capable ==> r == Err::<(), SallyError>(SallyError::NotSupported)
                && final(self).block@ == old(self).block@ && final(self).pending == old(
                self,
            ).pending,
            old(self).capable ==> {
                let n = if data@.len() <= old(self).capacity() {
                    data@.len()
                } else {
                    old(self).capacity()
                };
                &&& r == Ok::<(), SallyError>(())
                &&& final(self).block@ == overwrite(
                    old(self).request_block(Op::Write, fd, n),
                    HEADER_SIZE as int,
                    data@.subrange(0, n as int),
                )
                &&& final(self).pending == Some((Op::Write, n as u64))
            },
    {
        if !self.capable {
            return Err(SallyError::NotSupported);
        }
        let cap = self.block.len() - HEADER_SIZE;
        let n = if data.len() <= cap {
            data.len()
        } else {
            cap
        };
        self.request(Op::Write, fd, n);
        copy_into(&mut self.block, HEADER_SIZE, data, n);
        Ok(())
    }

    /// Asks the host to close `fd`. Without a capable platform nothing is
    /// sent.
    pub fn request_close(&mut self, fd: i32) -> (r: Result<(), SallyError>)
        requires
            old(self).wf(),
        ensures
            final(self).wf(),
            final(self).capable == old(self).capable,
            !old(self).capable ==> r == Err::<(), SallyError>(SallyError::NotSupported)
                && final(self).block@ == old(self).block@ && final(self).pending == old(
                self,
            ).pending,
            old(self).capable ==> r == Ok::<(), SallyError>(()) && final(self).block@ == old(
                self,
            ).request_block(Op::Close, fd, 0) && final(self).pending == Some((Op::Close, 0u64)),
    {
        if !self.capable {
            return Err(SallyError::NotSupported);
        }
        self.request(Op::Close, fd, 0);
        Ok(())
    }

    /// Reads the host's answer to the outstanding request `op`: its count.
    /// The request is no longer outstanding afterwards.
    fn response(&mut self, op: Op) -> (r: Result<u64, SallyError>)
        requires
            old(self).wf(),
        ensures
            final(self).wf(),
            final(self).block@ == old(self).block@,
            final(self).capable == old(self).capable,
            match old(self).pending {
                Some((o, asked)) if o == op => r == response_result(old(self).block@, op, asked)
                    && final(self).pending.is_none(),
                _ => r == Err::<u64, SallyError>(SallyError::NoRequest) && final(self).pending
                    == old(self).pending,
            },
    {
        let asked = match self.pending {
            Some((o, asked)) => {
                if o != op {
                    return Err(SallyError::NoRequest);
                }
                asked
            },
            None => {
                return Err(SallyError::NoRequest);
            },
        };
        self.pending = None;
        let kind = read_word(&self.block, KIND_AT);
        let code = read_word(&self.block, OP_AT);
        let ret = read_word(&self.block, RET_AT) as i64;
        if kind != KIND_RESPONSE || code != op.code() {
            Err(SallyError::ProtocolViolation)
        } else if ret < 0 {
            if ret < -MAX_ERRNO {
                Err(SallyError::ProtocolViolation)
            } else if -ret == ENOSYS {
                Err(SallyError::NotSupported)
            } else {
                Err(SallyError::Errno((-ret) as i64))
            }
        } else if ret as u64 > asked {
            Err(SallyError::ProtocolViolation)
        } else {
            Ok(ret as u64)
        }
    }

    /// The bytes the host read for the outstanding read request. The offset
    /// and count the host claims are checked against the block first: an
    /// answer that points outside the payload, or gives more than was asked,
    /// is a protocol violation and nothing is read.
    pub fn read_response(&mut self) -> (r: Result<Vec<u8>, SallyError>)
        requires
            old(self).wf(),
        ensures
            final(self).wf(),
            final(self).block@ == old(self).block@,
            final(self).capable == old(self).capable,
            match old(self).pending {
                Some((Op::Read, asked)) => {
                    &&& final(self).pending.is_none()
                    &&& match response_result(old(self).block@, Op::Read, asked) {
                        Err(e) => r is Err && r->Err_0 == e,
                        Ok(n) => {
                            let ptr = word(old(self).block@, PTR_AT as int);
                            if in_payload(ptr, n as nat, old(self).block@.len()) {
                                r is Ok && r->Ok_0@ == old(self).block@.subrange(
                                    ptr as int,
                                    ptr + n,
                                )
                            } else {
                                r is Err && r->Err_0 == SallyError::ProtocolViolation
                            }
                        },
                    }
                },
                _ => r is Err && r->Err_0 == SallyError::NoRequest && final(self).pending == old(
                    self,
                ).pending,
            },
    {
        let n = match self.response(Op::Read) {
            Err(e) => {
                return Err(e);
            },
            Ok(n) => n,
        };
        let ptr = read_word(&self.block, PTR_AT);
        match validate_slice(ptr, n, self.block.len()) {
            Err(e) => Err(e),
            Ok((at, len)) => Ok(copy_out(&self.block, at, len)),
        }
    }

    /// The count the host wrote for the outstanding write request.
    pub fn write_response(&mut self) -> (r: Result<usize, SallyError>)
        requires
            old(self).wf(),
        ensures
            final(self).wf(),
            final(self).block@ == old(self).block@,
            final(self).capable == old(self).capable,
            match old(self).pending {
                Some((Op::Write, asked)) => final(self).pending.is_none() && match response_result(
                    old(self).block@,
                    Op::Write,
                    asked,
                ) {
                    Err(e) => r == Err::<usize, SallyError>(e),
                    Ok(n) => r == Ok::<usize, SallyError>(n as usize),
                },
                _ => r == Err::<usize, SallyError>(SallyError::NoRequest) && final(self).pending
                    == old(self).pending,
            },
    {
        match self.response(Op::Write) {
            Err(e) => Err(e),
            Ok(n) => Ok(n as usize),
        }
    }

    /// The host's answer to the outstanding close request.
    pub fn close_response(&mut self) -> (r: Result<(), SallyError>)
        requires
            old(self).wf(),
        ensures
            final(self).wf(),
            final(self).block@ == old(self).block@,
            final(self).capable == old(self).capable,
            match old(self).pending {
                Some((Op::Close, asked)) => final(self).pending.is_none() && match response_result(
                    old(self).block@,
                    Op::Close,
                    asked,
                ) {
                    Err(e) => r == Err::<(), SallyError>(e),
                    Ok(_) => r == Ok::<(), SallyError>(()),
                },
                _ => r == Err::<(), SallyError>(SallyError::NoRequest) && final(self).pending
                    == old(self).pending,
            },
    {
        match self.response(Op::Close) {
            Err(e) => Err(e),
            Ok(_) => Ok(()),
        }
    }
}

proof fn lemma_header_len(kind: u64, op: u64, fd: u64, ptr: u64, len: u64, ret: u64)
    ensures
        header(kind, op, fd, ptr, len, ret).len() == HEADER_SIZE,
{
    lemma_le_bytes_len(kind as nat, 8);
    lemma_le_bytes_len(op as nat, 8);
    lemma_le_bytes_len(fd as nat, 8);
    lemma_le_bytes_len(ptr as nat, 8);
    lemma_le_bytes_len(len as nat, 8);
    lemma_le_bytes_len(ret as nat, 8);
}


/// What the host is asked to do by the request in a block.
#[derive(Clone, Copy, Debug, PartialEq, Eq, Structural)]
pub enum HostCall {
    /// The block holds no request.
    Idle,
    /// Read up to `len` bytes from `fd` into the block at offset `ptr`.
    Read { fd: i32, ptr: usize, len: usize },
    /// Write the `len` bytes of the block at offset `ptr` to `fd`.
    Write { fd: i32, ptr: usize, len: usize },
    /// Close `fd`.
    Close { fd: i32 },
    /// An operation the host does not implement; answered already.
    Unsupported,
    /// A request whose data lies outside the payload; answered already.
    Fault,
}

/// The request held by block `b`.
pub open spec fn decode(b: Seq<u8>) -> HostCall {
    let op = word(b, OP_AT as int);
    let fd = word_fd(word(b, FD_AT as int));
    let ptr = word(b, PTR_AT as int);
    let len = word(b, LEN_AT as int);
    if word(b, KIND_AT as int) != KIND_REQUEST {
        HostCall::Idle
    } else if op == SYS_CLOSE {
        HostCall::Close { fd }
    } else if op == SYS_READ || op == SYS_WRITE {
        if !in_payload(ptr, len, b.len()) {
            HostCall::Fault
        } else if op == SYS_READ {
            HostCall::Read { fd, ptr: ptr as usize, len: len as usize }
        } else {
            HostCall::Write { fd, ptr: ptr as usize, len: len as usize }
        }
    } else {
        HostCall::Unsupported
    }
}

/// The host's first step on a block: decodes its request. A request for an
/// operation the host lacks is answered as not supported, one whose data
/// lies outside the payload as a bad address; other requests are left for
/// the caller to carry out and answer. The block never changes size.
pub fn host_execute(block: &mut Vec<u8>) -> (r: HostCall)
    requires
        HEADER_SIZE <= old(block)@.len(),
    ensures
        r == decode(old(block)@),
        r == HostCall::Unsupported ==> final(block)@ == with_response(old(block)@, (-ENOSYS) as i64),
        r == HostCall::Fault ==> final(block)@ == with_response(old(block)@, (-EFAULT) as i64),
        r != HostCall::Unsupported && r != HostCall::Fault ==> final(block)@ == old(block)@,
{
    let kind = read_word(block, KIND_AT);
    let op = read_word(block, OP_AT);
    let fd = read_word(block, FD_AT) as u32 as i32;
    let ptr = read_word(block, PTR_AT);
    let len = read_word(block, LEN_AT);
    if kind != KIND_REQUEST {
        HostCall::Idle
    } else if op == SYS_CLOSE {
        HostCall::Close { fd }
    } else if op == SYS_READ || op == SYS_WRITE {
        match validate_slice(ptr, len, block.len()) {
            Err(_) => {
                write_response(block, -EFAULT);
                HostCall::Fault
            },
            Ok((at, n)) => {
                if op == SYS_READ {
                    HostCall::Read { fd, ptr: at, len: n }
                } else {
                    HostCall::Write { fd, ptr: at, len: n }
                }
            },
        }
    } else {
        write_response(block, -ENOSYS);
        HostCall::Unsupported
    }
}

/// The bytes a write request asks the host to write.
pub fn host_payload(block: &[u8], ptr: usize, len: usize) -> (r: Vec<u8>)
    requires
        ptr + len <= block@.len(),
    ensures
        r@ == block@.subrange(ptr as int, ptr + len),
{
    copy_out(block, ptr, len)
}

/// Answers a request with `ret`: a count, or a negated error number.
pub fn host_complete(block: &mut Vec<u8>, ret: i64)
    requires
        HEADER_SIZE <= old(block)@.len(),
    ensures
        final(block)@ == with_response(old(block)@, ret),
{
    write_response(block, ret);
}

/// Answers a read request with the bytes `data` that were read: they go to
/// offset `ptr` and their count is the result.
pub fn host_complete_read(block: &mut Vec<u8>, ptr: usize, data: &[u8])
    requires
        HEADER_SIZE <= ptr,
        ptr + data@.len() <= old(block)@.len(),
    ensures
        final(block)@ == with_response(
            overwrite(old(block)@, ptr as int, data@),
            data@.len() as i64,
        ),
{
    copy_into(block, ptr, data, data.len());
    assert(data@.subrange(0, data@.len() as int) =~= data@);
    write_response(block, data.len() as i64);
}

} // verus!
