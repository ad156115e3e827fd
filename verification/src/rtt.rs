//! SEGGER RTT (Real-Time Transfer) support: the control block and buffer
//! descriptors read from the target's RAM, airfrog's local ring buffer of
//! received data, and the decisions of the RTT task.

use vstd::prelude::*;
use crate::fmt::{append_hex_word, hex_word, parse_hex_u32, parse_hex_word, trim_0x};

verus! {

/// Size of airfrog's local RTT buffer.
pub const BUFFER_SIZE: usize = 4096;

/// Most bytes read from the target, or returned to a caller, at once.
pub const MAX_BYTES_PER_READ: usize = 256;

/// RTT task state.
#[derive(Debug, PartialEq, Eq, Clone, Copy, Structural)]
pub enum State {
    Start,
    Stop,
}

/// RTT task controls.
#[derive(Debug, PartialEq, Eq, Clone, Copy, Structural)]
pub enum Control {
    /// Start the RTT task, with the control block at this address.
    Start { rtt_cb_loc: u32 },
    /// Stop the RTT task.
    Stop,
}

/// RTT task commands.
#[derive(Debug, PartialEq, Eq, Clone, Copy, Structural)]
pub enum Command {
    /// Retrieves the RTT state.
    _GetState,
    /// Reads up to `max` bytes from the RTT buffer.
    Read { max: usize },
}

/// RTT task responses.
#[derive(Debug, PartialEq, Eq)]
pub enum Response {
    /// The current state of the RTT task.
    State { state: State },
    /// The data read from the RTT buffer.
    Data { data: Vec<u8> },
}

/// RTT task errors.
#[derive(Debug, PartialEq, Eq, Clone, Copy, Structural)]
pub enum Error {
    /// Cannot complete the command due to the RTT state.
    Stopped,
    /// No data to return.
    NoData,
    /// Cannot find RTT data at the indicated location.
    NotFound,
    /// Error from the target.
    Target,
    /// Internal error.
    Internal,
    /// The local buffer is full.
    Full,
}

/// The identifier at the start of an RTT control block.
pub open spec fn rtt_id() -> Seq<u8> {
    seq![
        0x53u8, 0x45u8, 0x47u8, 0x47u8, 0x45u8, 0x52u8, 0x20u8, 0x52u8, 0x54u8, 0x54u8, 0u8, 0u8,
        0u8, 0u8, 0u8, 0u8,
    ]
}

/// A little-endian 32-bit word at offset `i` of `s`.
pub open spec fn le_word(s: Seq<u8>, i: int) -> u32 {
    (s[i] as u32) | ((s[i + 1] as u32) << 8u32) | ((s[i + 2] as u32) << 16u32) | ((s[i + 3] as u32)
        << 24u32)
}

fn read_word_at(b: &[u8], i: usize) -> (r: u32)
    requires
        i + 4 <= b@.len(),
    ensures
        r == le_word(b@, i as int),
{
    (b[i] as u32) | ((b[i + 1] as u32) << 8u32) | ((b[i + 2] as u32) << 16u32) | ((b[i + 3] as u32)
        << 24u32)
}

/// The main RTT control block.
#[derive(Debug, PartialEq, Eq, Clone, Copy, Structural)]
pub struct RttCb {
    pub location: u32,
    pub max_up_bufs: i32,
    pub _max_down_bufs: i32,
}

/// Size of an RTT control block header.
pub const HEADER_SIZE: usize = 24;

/// Size of an RTT buffer descriptor.
pub const BUF_DESC_SIZE: usize = 24;

impl RttCb {
    /// Parses a control block header read from `location`: 16 identifier
    /// bytes, then the signed numbers of up and down buffers. Fewer than 24
    /// bytes is an internal error; a wrong identifier is `NotFound`.
    pub fn from_location_bytes(location: u32, bytes: &[u8]) -> (r: Result<Self, Error>)
        ensures
            bytes@.len() < HEADER_SIZE ==> r == Err::<RttCb, Error>(Error::Internal),
            bytes@.len() >= HEADER_SIZE && bytes@.subrange(0, 16) != rtt_id() ==> r == Err::<
                RttCb,
                Error,
            >(Error::NotFound),
            bytes@.len() >= HEADER_SIZE && bytes@.subrange(0, 16) == rtt_id() ==> r == Ok::<
                RttCb,
                Error,
            >(
                RttCb {
                    location,
                    max_up_bufs: le_word(bytes@, 16) as i32,
                    _max_down_bufs: le_word(bytes@, 20) as i32,
                },
            ),
    {
        if bytes.len() < HEADER_SIZE {
            return Err(Error::Internal);
        }
        let id: [u8; 16] = [
            0x53, 0x45, 0x47, 0x47, 0x45, 0x52, 0x20, 0x52, 0x54, 0x54, 0, 0, 0, 0, 0, 0,
        ];
        let mut i: usize = 0;
        while i < 16
            invariant
                i <= 16,
                bytes@.len() >= HEADER_SIZE,
                id@ == rtt_id(),
                forall|j: int| 0 <= j < i ==> bytes@[j] == rtt_id()[j],
            decreases 16 - i,
        {
            if bytes[i] != id[i] {
                assert(bytes@.subrange(0, 16)[i as int] != rtt_id()[i as int]);
                return Err(Error::NotFound);
            }
            i = i + 1;
        }
        assert(bytes@.subrange(0, 16) =~= rtt_id());
        let max_up_bufs = read_word_at(bytes, 16) as i32;
        let max_down_bufs = read_word_at(bytes, 20) as i32;
        Ok(Self { location, max_up_bufs, _max_down_bufs: max_down_bufs })
    }

    /// The address of up buffer descriptor `index`, which follows the header;
    /// an index above the number of up buffers is `NotFound`.
    pub fn get_up_buf_loc(&self, index: usize) -> (r: Result<u32, Error>)
        requires
            index <= self.max_up_bufs as usize ==> self.location + HEADER_SIZE + index * BUF_DESC_SIZE
                <= u32::MAX,
        ensures
            index > self.max_up_bufs as usize ==> r == Err::<u32, Error>(Error::NotFound),
            index <= self.max_up_bufs as usize ==> r == Ok::<u32, Error>(
                (self.location + HEADER_SIZE + index * BUF_DESC_SIZE) as u32,
            ),
    {
        if index > self.max_up_bufs as usize {
            return Err(Error::NotFound);
        }
        let up_buf_start = self.location + HEADER_SIZE as u32;
        let up_buf_loc = up_buf_start + (index * BUF_DESC_SIZE) as u32;
        Ok(up_buf_loc)
    }

    /// The address of down buffer descriptor `index`; an index above the
    /// number of down buffers is `NotFound`.
    pub fn _get_down_buf_loc(&self, index: usize) -> (r: Result<u32, Error>)
        requires
            index <= self._max_down_bufs as usize ==> self.location + (self.max_up_bufs as usize)
                * BUF_DESC_SIZE + index * BUF_DESC_SIZE <= u32::MAX,
        ensures
            index > self._max_down_bufs as usize ==> r == Err::<u32, Error>(Error::NotFound),
            index <= self._max_down_bufs as usize ==> r == Ok::<u32, Error>(
                (self.location + (self.max_up_bufs as usize) * BUF_DESC_SIZE + index * BUF_DESC_SIZE) as u32,
            ),
    {
        if index > self._max_down_bufs as usize {
            return Err(Error::NotFound);
        }
        assert((self.max_up_bufs as usize) * BUF_DESC_SIZE <= u32::MAX) by (nonlinear_arith)
            requires
                self.location + (self.max_up_bufs as usize) * BUF_DESC_SIZE + index * BUF_DESC_SIZE <= u32::MAX,
                index >= 0,
        ;
        assert(index * BUF_DESC_SIZE <= u32::MAX) by (nonlinear_arith)
            requires
                self.location + (self.max_up_bufs as usize) * BUF_DESC_SIZE + index * BUF_DESC_SIZE <= u32::MAX,
                self.max_up_bufs as usize >= 0,
        ;
        let down_buf_start = self.location + (self.max_up_bufs as usize * BUF_DESC_SIZE) as u32;
        let down_buf_loc = down_buf_start + (index * BUF_DESC_SIZE) as u32;
        Ok(down_buf_loc)
    }
}

/// An up or down RTT buffer descriptor.
#[derive(Debug, PartialEq, Eq, Copy, Clone, Structural)]
pub struct RttBuf {
    pub location: u32,
    pub data_ptr: u32,
    pub name_ptr: u32,
    pub size: u32,
    pub write_pos: u32,
    pub read_pos: u32,
}

/// Offset of the write position within a buffer descriptor.
pub const WRITE_POS_OFFSET: u32 = 12;

/// Offset of the read position within a buffer descriptor.
pub const READ_POS_OFFSET: u32 = 16;

/// The number of bytes a target buffer holds between its read and write
/// positions.
pub open spec fn target_available(b: RttBuf) -> int {
    if b.write_pos > b.read_pos {
        b.write_pos - b.read_pos
    } else {
        (b.size - b.read_pos) + b.write_pos
    }
}

impl RttBuf {
    /// Parses a buffer descriptor read from `location`: name pointer, data
    /// pointer, size, write position, read position and flags, each a
    /// little-endian word. Fewer than 24 bytes is an internal error; flags
    /// with any of their top eight bits set are `NotFound`.
    pub fn from_location_bytes(location: u32, bytes: &[u8]) -> (r: Result<Self, Error>)
        ensures
            bytes@.len() < BUF_DESC_SIZE ==> r == Err::<RttBuf, Error>(Error::Internal),
            bytes@.len() >= BUF_DESC_SIZE && le_word(bytes@, 20) & 0xFF000000 != 0 ==> r == Err::<
                RttBuf,
                Error,
            >(Error::NotFound),
            bytes@.len() >= BUF_DESC_SIZE && le_word(bytes@, 20) & 0xFF000000 == 0 ==> r == Ok::<
                RttBuf,
                Error,
            >(
                RttBuf {
                    location,
                    name_ptr: le_word(bytes@, 0),
                    data_ptr: le_word(bytes@, 4),
                    size: le_word(bytes@, 8),
                    write_pos: le_word(bytes@, 12),
                    read_pos: le_word(bytes@, 16),
                },
            ),
    {
        if bytes.len() < BUF_DESC_SIZE {
            return Err(Error::Internal);
        }
        let name_ptr = read_word_at(bytes, 0);
        let data_ptr = read_word_at(bytes, 4);
        let size = read_word_at(bytes, 8);
        let write_pos = read_word_at(bytes, 12);
        let read_pos = read_word_at(bytes, 16);
        let flags = read_word_at(bytes, 20);
        if flags & 0xFF000000 != 0 {
            return Err(Error::NotFound);
        }
        Ok(Self { location, data_ptr, name_ptr, size, write_pos, read_pos })
    }

    /// The target address of the next byte to read.
    pub fn cur_read_loc(&self) -> (r: u32)
        requires
            self.data_ptr + self.read_pos <= u32::MAX,
        ensures
            r == self.data_ptr + self.read_pos,
    {
        self.data_ptr + self.read_pos
    }

    /// The target address of this descriptor's write position field.
    pub fn write_pos_field_loc(&self) -> (r: u32)
        requires
            self.location + WRITE_POS_OFFSET <= u32::MAX,
        ensures
            r == self.location + WRITE_POS_OFFSET,
    {
        self.location + WRITE_POS_OFFSET
    }

    /// The target address of this descriptor's read position field.
    pub fn read_pos_field_loc(&self) -> (r: u32)
        requires
            self.location + READ_POS_OFFSET <= u32::MAX,
        ensures
            r == self.location + READ_POS_OFFSET,
    {
        self.location + READ_POS_OFFSET
    }

    /// The number of bytes the target buffer holds.
    pub fn available_data(&self) -> (r: usize)
        requires
            self.write_pos <= self.read_pos ==> self.read_pos <= self.size && self.size - self.read_pos
                + self.write_pos <= u32::MAX,
        ensures
            r == target_available(*self),
    {
        if self.write_pos > self.read_pos {
            (self.write_pos - self.read_pos) as usize
        } else {
            ((self.size - self.read_pos) + self.write_pos) as usize
        }
    }
}

/// The number of bytes a ring of [`BUFFER_SIZE`] bytes holds from read
/// position `r` up to write position `w`.
pub open spec fn ring_len(r: nat, w: nat) -> nat {
    if w >= r {
        (w - r) as nat
    } else {
        (BUFFER_SIZE - r + w) as nat
    }
}

/// The bytes a ring holds, oldest first.
pub open spec fn ring_contents(ring: Seq<u8>, r: nat, w: nat) -> Seq<u8> {
    Seq::new(ring_len(r, w), |i: int| ring[wrap(r + i)])
}

/// The ring after writing `d` from position `w` onward, wrapping at
/// [`BUFFER_SIZE`]; later bytes overwrite earlier ones at the same slot.
pub open spec fn ring_write(ring: Seq<u8>, w: nat, d: Seq<u8>) -> Seq<u8>
    decreases d.len(),
{
    if d.len() == 0 {
        ring
    } else {
        ring_write(ring, w, d.drop_last()).update(
            wrap(w + d.len() - 1),
            d.last(),
        )
    }
}

/// The ring slot that position `x` falls on.
pub open spec fn wrap(x: int) -> int {
    x % (BUFFER_SIZE as int)
}

proof fn lemma_mod_step(w0: int, i: int)
    requires
        w0 >= 0,
        i >= 0,
    ensures
        wrap(wrap(w0 + i) + 1) == wrap(w0 + i + 1),
{
    assert(((w0 + i) % 4096 + 1) % 4096 == (w0 + i + 1) % 4096) by (nonlinear_arith)
        requires w0 >= 0, i >= 0;
}

proof fn lemma_ring_push(ring: Seq<u8>, r: nat, w: nat, b: u8)
    requires
        ring.len() == BUFFER_SIZE,
        r < BUFFER_SIZE,
        w < BUFFER_SIZE,
        ring_len(r, w) + 1 < BUFFER_SIZE,
    ensures
        ring_contents(ring.update(w as int, b), r, wrap(w + 1int) as nat) =~= ring_contents(
            ring,
            r,
            w,
        ).push(b),
{
    let n = BUFFER_SIZE as int;
    let len = ring_len(r, w);
    let w1 = wrap(w + 1int) as nat;
    assert(ring_len(r, w1) == len + 1);
    assert forall|j: int| 0 <= j < len implies #[trigger] wrap(r + j) != w by {
        if w >= r {
            assert((r + j) % n == r + j);
        } else if r + j < n {
            assert((r + j) % n == r + j);
        } else {
            assert((r + j) % n == r + j - n);
        }
    }
    assert((r + len) as int % n == w);
}

proof fn lemma_ring_skip(ring: Seq<u8>, r: nat, w: nat, k: nat)
    requires
        ring.len() == BUFFER_SIZE,
        r < BUFFER_SIZE,
        w < BUFFER_SIZE,
        k <= ring_len(r, w),
    ensures
        ring_contents(ring, wrap(r as int + k) as nat, w) =~= ring_contents(ring, r, w).subrange(
            k as int,
            ring_len(r, w) as int,
        ),
{
    let n = BUFFER_SIZE as int;
    let r1 = wrap(r as int + k) as nat;
    if w >= r {
        assert(r1 == r + k);
    } else if r + k < n {
        assert(r1 == r + k);
    } else {
        assert(r1 == r + k - n);
    }
    assert(ring_len(r1, w) == ring_len(r, w) - k);
    assert forall|j: int| 0 <= j < ring_len(r1, w) implies #[trigger] wrap(r1 + j) == wrap(r + k + j) by {
        assert(((r + k) as int % n + j) % n == (r + k + j) % n) by (nonlinear_arith)
            requires n == 4096, j >= 0;
    }
}

proof fn lemma_ring_write_len(ring: Seq<u8>, w: nat, d: Seq<u8>)
    requires
        ring.len() == BUFFER_SIZE,
    ensures
        ring_write(ring, w, d).len() == BUFFER_SIZE,
    decreases d.len(),
{
    if d.len() > 0 {
        lemma_ring_write_len(ring, w, d.drop_last());
    }
}

/// What the local ring holds after a write: where `d` fits in the free
/// space, the bytes held before followed by `d` (first in, first out).
pub proof fn lemma_ring_write_appends(ring: Seq<u8>, r: nat, w: nat, d: Seq<u8>)
    requires
        ring.len() == BUFFER_SIZE,
        r < BUFFER_SIZE,
        w < BUFFER_SIZE,
        ring_len(r, w) + d.len() < BUFFER_SIZE,
    ensures
        ring_contents(ring_write(ring, w, d), r, wrap(w + d.len() as int) as nat) == ring_contents(ring, r, w)
            + d,
    decreases d.len(),
{
    if d.len() == 0 {
        assert(wrap(w + 0int) == w);
        assert(ring_contents(ring, r, w) + d =~= ring_contents(ring, r, w));
    } else {
        let d0 = d.drop_last();
        lemma_ring_write_appends(ring, r, w, d0);
        lemma_ring_write_len(ring, w, d0);
        let ring0 = ring_write(ring, w, d0);
        let w0 = wrap(w + d0.len() as int) as nat;
        assert(ring_contents(ring0, r, w0).len() == ring_len(r, w0));
        lemma_ring_push(ring0, r, w0, d.last());
        lemma_mod_step(w as int, d0.len() as int);
        assert(ring_contents(ring, r, w) + d =~= (ring_contents(ring, r, w) + d0).push(d.last()));
    }
}

/// airfrog's local copy of the RTT data: a ring of [`BUFFER_SIZE`] bytes
/// that keeps one slot free, so it holds at most `BUFFER_SIZE - 1` bytes.
pub struct LocalBuf {
    data: Vec<u8>,
    write_pos: usize,
    read_pos: usize,
}

impl LocalBuf {
    #[verifier::type_invariant]
    spec fn inv(&self) -> bool {
        &&& self.data@.len() == BUFFER_SIZE
        &&& self.write_pos < BUFFER_SIZE
        &&& self.read_pos < BUFFER_SIZE
    }

    /// The ring's bytes, slot by slot.
    pub closed spec fn ring(&self) -> Seq<u8> {
        self.data@
    }

    /// The next slot written.
    pub closed spec fn wpos(&self) -> nat {
        self.write_pos as nat
    }

    /// The next slot read.
    pub closed spec fn rpos(&self) -> nat {
        self.read_pos as nat
    }

    /// The bytes held, oldest first.
    pub open spec fn contents(&self) -> Seq<u8> {
        ring_contents(self.ring(), self.rpos(), self.wpos())
    }

    /// The free space: slots not holding data, less the one kept free.
    pub open spec fn free(&self) -> nat {
        (BUFFER_SIZE - 1 - self.contents().len()) as nat
    }

    /// An empty buffer.
    pub fn new() -> (r: Self)
        ensures
            r.ring() == Seq::new(BUFFER_SIZE as nat, |i: int| 0u8),
            r.wpos() == 0,
            r.rpos() == 0,
            r.contents() == Seq::<u8>::empty(),
    {
        let mut data: Vec<u8> = Vec::new();
        let mut i: usize = 0;
        while i < BUFFER_SIZE
            invariant
                i <= BUFFER_SIZE,
                data@ =~= Seq::new(i as nat, |j: int| 0u8),
            decreases BUFFER_SIZE - i,
        {
            data.push(0);
            i = i + 1;
        }
        let r = LocalBuf { data, write_pos: 0, read_pos: 0 };
        assert(r.contents() =~= Seq::<u8>::empty());
        r
    }

    /// The free space: slots not holding data, less the one kept free.
    pub fn available_space(&self) -> (r: usize)
        ensures
            r == BUFFER_SIZE - 1 - self.contents().len(),
    {
        proof {
            use_type_invariant(self);
        }
        if self.read_pos > self.write_pos {
            self.read_pos - self.write_pos - 1
        } else {
            BUFFER_SIZE - (self.write_pos - self.read_pos) - 1
        }
    }

    /// Stores `byte` at the write position and advances it by one slot.
    fn push_byte(&mut self, byte: u8)
        ensures
            final(self).ring() == old(self).ring().update(old(self).wpos() as int, byte),
            final(self).wpos() == wrap(old(self).wpos() + 1int),
            final(self).rpos() == old(self).rpos(),
        no_unwind
    {
        proof {
            use_type_invariant(&*self);
        }
        let pos = self.write_pos;
        self.data[pos] = byte;
        self.write_pos = (pos + 1) % BUFFER_SIZE;
    }

    /// Writes `data` into the ring from the write position onward, wrapping
    /// around, and advances the write position past it. Bytes are written
    /// whether or not there is space for them: only when `data` fits in
    /// [`LocalBuf::available_space`] are the held bytes the old ones
    /// followed by `data`.
    pub fn write_data(&mut self, data: &[u8])
        ensures
            final(self).ring() == ring_write(old(self).ring(), old(self).wpos(), data@),
            final(self).wpos() == wrap(old(self).wpos() + data@.len() as int),
            final(self).rpos() == old(self).rpos(),
            data@.len() <= BUFFER_SIZE - 1 - old(self).contents().len() ==> final(self).contents()
                == old(self).contents() + data@,
    {
        proof {
            use_type_invariant(&*self);
        }
        let ghost ring0 = self.data@;
        let ghost w0 = self.write_pos as nat;
        let ghost r0 = self.read_pos as nat;
        let ghost c0 = self.contents();
        let mut i: usize = 0;
        while i < data.len()
            invariant
                i <= data@.len(),
                self.data@.len() == BUFFER_SIZE,
                self.write_pos < BUFFER_SIZE,
                self.read_pos == r0,
                r0 < BUFFER_SIZE,
                w0 < BUFFER_SIZE,
                self.data@ == ring_write(ring0, w0, data@.take(i as int)),
                self.write_pos == wrap(w0 + i),
                c0 == ring_contents(ring0, r0, w0),
                data@.len() <= BUFFER_SIZE - 1 - c0.len() ==> ring_contents(
                    self.data@,
                    r0,
                    self.write_pos as nat,
                ) == c0 + data@.take(i as int),
            decreases data@.len() - i,
        {
            let byte = data[i];
            let pos = self.write_pos;
            proof {
                if data@.len() <= BUFFER_SIZE - 1 - c0.len() {
                    lemma_ring_push(self.data@, r0, pos as nat, byte);
                    assert(c0 + data@.take(i + 1) =~= (c0 + data@.take(i as int)).push(byte));
                }
                assert(data@.take(i + 1).drop_last() =~= data@.take(i as int));
                lemma_mod_step(w0 as int, i as int);
            }
            self.push_byte(byte);
            i = i + 1;
        }
        proof {
            assert(data@.take(data@.len() as int) =~= data@);
        }
    }

    /// Moves up to `buf.len()` held bytes, oldest first, into the start of
    /// `buf`, and returns how many were moved; the rest of `buf` is left as
    /// it was.
    pub fn read_data(&mut self, buf: &mut [u8]) -> (n: usize)
        ensures
            n == if old(buf)@.len() < old(self).contents().len() {
                old(buf)@.len()
            } else {
                old(self).contents().len()
            },
            final(buf)@.len() == old(buf)@.len(),
            final(buf)@.subrange(0, n as int) == old(self).contents().subrange(0, n as int),
            final(buf)@.subrange(n as int, old(buf)@.len() as int) == old(buf)@.subrange(
                n as int,
                old(buf)@.len() as int,
            ),
            final(self).ring() == old(self).ring(),
            final(self).wpos() == old(self).wpos(),
            final(self).rpos() == wrap(old(self).rpos() + n as int),
            final(self).contents() == old(self).contents().subrange(
                n as int,
                old(self).contents().len() as int,
            ),
    {
        proof {
            use_type_invariant(&*self);
        }
        let available = self.available_data();
        let to_read = if buf.len() < available {
            buf.len()
        } else {
            available
        };
        let ghost c0 = self.contents();
        let ghost buf0 = buf@;
        let mut i: usize = 0;
        while i < to_read
            invariant
                i <= to_read,
                to_read <= buf@.len(),
                to_read <= c0.len(),
                buf@.len() == buf0.len(),
                self.data@.len() == BUFFER_SIZE,
                self.read_pos < BUFFER_SIZE,
                c0 == ring_contents(self.data@, self.read_pos as nat, self.write_pos as nat),
                buf@.subrange(0, i as int) == c0.subrange(0, i as int),
                buf@.subrange(i as int, buf@.len() as int) == buf0.subrange(i as int, buf0.len() as int),
            decreases to_read - i,
        {
            let byte = self.data[(self.read_pos + i) % BUFFER_SIZE];
            let ghost before = buf@;
            buf[i] = byte;
            proof {
                assert(buf@.subrange(0, i + 1) =~= before.subrange(0, i as int).push(byte));
                assert(c0.subrange(0, i + 1) =~= c0.subrange(0, i as int).push(c0[i as int]));
                assert(buf@.subrange(i + 1, buf@.len() as int) =~= before.subrange(
                    i + 1,
                    before.len() as int,
                ));
                assert(before.subrange(i + 1, before.len() as int) =~= before.subrange(
                    i as int,
                    before.len() as int,
                ).subrange(1, before.len() - i));
            }
            i = i + 1;
        }
        proof {
            lemma_ring_skip(self.data@, self.read_pos as nat, self.write_pos as nat, to_read as nat);
        }
        self.read_pos = (self.read_pos + to_read) % BUFFER_SIZE;
        to_read
    }

    /// The number of bytes held.
    pub fn available_data(&self) -> (r: usize)
        ensures
            r == self.contents().len(),
    {
        proof {
            use_type_invariant(self);
        }
        if self.write_pos >= self.read_pos {
            self.write_pos - self.read_pos
        } else {
            BUFFER_SIZE - self.read_pos + self.write_pos
        }
    }
}


/// The smaller of two integers.
pub open spec fn min_int(a: int, b: int) -> int {
    if a < b {
        a
    } else {
        b
    }
}

/// The target address (as `{:#010X}` renders it) and word count of a bulk
/// read of `num_bytes` bytes from `location`. Only a non-zero multiple of
/// four bytes can be read; anything else is an internal error.
pub fn bulk_read_args(location: u32, num_bytes: usize) -> (r: Result<(String, usize), Error>)
    ensures
        match r {
            Ok((addr, count)) => num_bytes > 0 && num_bytes % 4 == 0 && addr@ == hex_word(
                location as nat,
            ) && count == num_bytes / 4,
            Err(e) => !(num_bytes > 0 && num_bytes % 4 == 0) && e == Error::Internal,
        },
{
    if num_bytes == 0 || num_bytes % 4 != 0 {
        return Err(Error::Internal);
    }
    let mut addr = String::new();
    append_hex_word(&mut addr, location);
    Ok((addr, num_bytes / 4))
}

/// The four bytes of `w`, least significant first.
pub open spec fn word_bytes(w: u32) -> Seq<u8> {
    seq![(w & 0xff) as u8, ((w >> 8u32) & 0xff) as u8, ((w >> 16u32) & 0xff) as u8, (w >> 24u32) as u8]
}

/// The bytes that a list of hexadecimal words stands for, each word
/// little-endian; `None` if any of them is not a hexadecimal word.
pub open spec fn hex_words_bytes(ws: Seq<Seq<char>>) -> Option<Seq<u8>>
    decreases ws.len(),
{
    if ws.len() == 0 {
        Some(Seq::empty())
    } else {
        match (hex_words_bytes(ws.drop_last()), parse_hex_u32(trim_0x(ws.last()))) {
            (Some(b), Some(w)) => Some(b + word_bytes(w)),
            _ => None,
        }
    }
}

/// Turns the words a bulk read returned, each written in hexadecimal with
/// or without `0x`, into bytes, each word little-endian. A word that does
/// not parse is an internal error.
pub fn bytes_from_hex_words(words: &Vec<String>) -> (r: Result<Vec<u8>, Error>)
    ensures
        match hex_words_bytes(words@.map_values(|w: String| w@)) {
            Some(b) => r matches Ok(v) && v@ == b,
            None => r == Err::<Vec<u8>, Error>(Error::Internal),
        },
{
    let ghost ws = words@.map_values(|w: String| w@);
    let mut bytes: Vec<u8> = Vec::new();
    let mut i: usize = 0;
    while i < words.len()
        invariant
            i <= words@.len(),
            ws == words@.map_values(|w: String| w@),
            hex_words_bytes(ws.take(i as int)) == Some(bytes@),
        decreases words@.len() - i,
    {
        assert(ws.take(i + 1).drop_last() =~= ws.take(i as int));
        let word = match parse_hex_word(words[i].as_str()) {
            Some(w) => w,
            None => {
                proof {
                    lemma_hex_words_prefix_fail(ws, (i + 1) as nat);
                }
                return Err(Error::Internal);
            },
        };
        bytes.push((word & 0xff) as u8);
        bytes.push(((word >> 8u32) & 0xff) as u8);
        bytes.push(((word >> 16u32) & 0xff) as u8);
        bytes.push((word >> 24u32) as u8);
        i = i + 1;
    }
    assert(ws.take(words@.len() as int) =~= ws);
    Ok(bytes)
}

proof fn lemma_hex_words_prefix_fail(ws: Seq<Seq<char>>, k: nat)
    requires
        k <= ws.len(),
        hex_words_bytes(ws.take(k as int)) is None,
    ensures
        hex_words_bytes(ws) is None,
    decreases ws.len(),
{
    if k < ws.len() {
        assert(ws.drop_last().take(k as int) =~= ws.take(k as int));
        lemma_hex_words_prefix_fail(ws.drop_last(), k);
    } else {
        assert(ws.take(k as int) =~= ws);
    }
}

/// The word that a read of four bytes returned; any other number of bytes
/// is `NoData`.
pub fn word_from_bytes(bytes: &[u8]) -> (r: Result<u32, Error>)
    ensures
        bytes@.len() != 4 ==> r == Err::<u32, Error>(Error::NoData),
        bytes@.len() == 4 ==> r == Ok::<u32, Error>(le_word(bytes@, 0)),
{
    if bytes.len() != 4 {
        return Err(Error::NoData);
    }
    Ok(read_word_at(bytes, 0))
}

/// The target reads a poll makes, as (address, byte count) pairs, given
/// the buffer descriptor with its fresh write position and the local free
/// space: nothing when the target buffer is empty; else at most the
/// smallest of what the target holds, the free space and
/// [`MAX_BYTES_PER_READ`], rounded down to whole words; that from the read
/// position up, and, where the target's data wraps and more is wanted than
/// lies before the end of its buffer, the rest from the buffer's start.
pub open spec fn target_read_plan(b: RttBuf, space: int) -> Seq<(u32, usize)> {
    let max_read = min_int(min_int(target_available(b), space), MAX_BYTES_PER_READ as int);
    let aligned = max_read - max_read % 4;
    if b.write_pos == b.read_pos || aligned == 0 {
        Seq::empty()
    } else if b.write_pos > b.read_pos {
        seq![((b.data_ptr + b.read_pos) as u32, min_int(aligned, b.write_pos - b.read_pos) as usize)]
    } else if aligned <= b.size - b.read_pos {
        seq![((b.data_ptr + b.read_pos) as u32, aligned as usize)]
    } else {
        seq![
            ((b.data_ptr + b.read_pos) as u32, (b.size - b.read_pos) as usize),
            (b.data_ptr, (aligned - (b.size - b.read_pos)) as usize),
        ]
    }
}

/// What the arithmetic of a poll needs of a buffer descriptor: a read
/// position inside the buffer where the data wraps, and addresses and
/// counts that fit in 32 bits.
pub open spec fn plannable(b: RttBuf) -> bool {
    &&& b.write_pos != b.read_pos ==> b.data_ptr + b.read_pos <= u32::MAX
    &&& b.write_pos < b.read_pos ==> b.read_pos <= b.size && (b.size - b.read_pos) + b.write_pos
        <= u32::MAX
}

/// Decides which target reads a poll makes; see [`target_read_plan`].
pub fn plan_target_read(b: &RttBuf, space: usize) -> (r: Vec<(u32, usize)>)
    requires
        plannable(*b),
    ensures
        r@ == target_read_plan(*b, space as int),
{
    if b.write_pos == b.read_pos {
        return Vec::new();
    }
    let target_available = b.available_data();
    let m1 = if target_available < space {
        target_available
    } else {
        space
    };
    let max_read = if m1 < MAX_BYTES_PER_READ {
        m1
    } else {
        MAX_BYTES_PER_READ
    };
    let aligned = max_read & !3usize;
    assert(max_read & !3usize == max_read - max_read % 4) by (bit_vector);
    if aligned == 0 {
        return Vec::new();
    }
    let mut plan: Vec<(u32, usize)> = Vec::new();
    if b.write_pos > b.read_pos {
        let gap = (b.write_pos - b.read_pos) as usize;
        let count = if aligned < gap {
            aligned
        } else {
            gap
        };
        plan.push((b.cur_read_loc(), count));
    } else {
        let first_chunk = (b.size - b.read_pos) as usize;
        if aligned <= first_chunk {
            plan.push((b.cur_read_loc(), aligned));
        } else {
            plan.push((b.cur_read_loc(), first_chunk));
            plan.push((b.data_ptr, aligned - first_chunk));
        }
    }
    assert(plan@ =~= target_read_plan(*b, space as int));
    plan
}

/// airfrog's RTT state, apart from its links to the target task: whether
/// it runs, the control block and first up buffer it found, and the local
/// copy of the data read so far.
pub struct Rtt {
    pub state: State,
    pub rtt_cb: Option<RttCb>,
    pub rtt_up_buf: Option<RttBuf>,
    pub local_buf: LocalBuf,
}

impl Rtt {
    /// A stopped RTT with an empty local buffer.
    pub fn new() -> (r: Self)
        ensures
            r.state == State::Stop,
            r.rtt_cb is None,
            r.rtt_up_buf is None,
            r.local_buf.contents() == Seq::<u8>::empty(),
    {
        Rtt { state: State::Stop, rtt_cb: None, rtt_up_buf: None, local_buf: LocalBuf::new() }
    }

    /// Records the control block and up buffer found by a (re)start and
    /// runs; the local buffer keeps what it held.
    pub fn start(&mut self, rtt_cb: RttCb, rtt_up_buf: RttBuf)
        ensures
            final(self).state == State::Start,
            final(self).rtt_cb == Some(rtt_cb),
            final(self).rtt_up_buf == Some(rtt_up_buf),
            final(self).local_buf == old(self).local_buf,
    {
        self.rtt_cb = Some(rtt_cb);
        self.rtt_up_buf = Some(rtt_up_buf);
        if self.state != State::Start {
            self.state = State::Start;
        }
    }

    /// Forgets the control block and up buffer and stops; the local buffer
    /// keeps what it held.
    pub fn stop(&mut self)
        ensures
            final(self).state == State::Stop,
            final(self).rtt_cb is None,
            final(self).rtt_up_buf is None,
            final(self).local_buf == old(self).local_buf,
    {
        self.rtt_cb = None;
        self.rtt_up_buf = None;
        self.state = State::Stop;
    }

    /// Answers a command: the state, or, while running, up to `max` (and at
    /// most [`MAX_BYTES_PER_READ`]) of the oldest bytes of the local
    /// buffer, which leave it. Reading while stopped is `Stopped`.
    pub fn handle_command(&mut self, command: Command) -> (r: Result<Response, Error>)
        ensures
            final(self).state == old(self).state,
            final(self).rtt_cb == old(self).rtt_cb,
            final(self).rtt_up_buf == old(self).rtt_up_buf,
            command is _GetState ==> r == Ok::<Response, Error>(Response::State { state: old(self).state })
                && final(self).local_buf == old(self).local_buf,
            command is Read && old(self).state == State::Stop ==> r == Err::<Response, Error>(
                Error::Stopped,
            ) && final(self).local_buf == old(self).local_buf,
            command is Read && old(self).state == State::Start ==> {
                let c = old(self).local_buf.contents();
                let n = min_int(min_int(command->max as int, MAX_BYTES_PER_READ as int), c.len() as int);
                &&& r matches Ok(Response::Data { data }) && data@ == c.subrange(0, n)
                &&& final(self).local_buf.contents() == c.subrange(n, c.len() as int)
            },
    {
        match command {
            Command::_GetState => Ok(Response::State { state: self.state }),
            Command::Read { max } => match self.state {
                State::Stop => Err(Error::Stopped),
                State::Start => {
                    let max = if max < MAX_BYTES_PER_READ {
                        max
                    } else {
                        MAX_BYTES_PER_READ
                    };
                    let mut data: Vec<u8> = vec![0u8; max];
                    let bytes_read = self.local_buf.read_data(data.as_mut_slice());
                    data.truncate(bytes_read);
                    Ok(Response::Data { data })
                },
            },
        }
    }

    /// The first decision of a poll of the target: a full local buffer is
    /// `Full`; else the stored up buffer descriptor, or `Stopped` where
    /// there is none.
    pub fn poll_buffer(&self) -> (r: Result<RttBuf, Error>)
        ensures
            self.local_buf.free() == 0 ==> r == Err::<RttBuf, Error>(Error::Full),
            self.local_buf.free() > 0 ==> r == match self.rtt_up_buf {
                Some(b) => Ok::<RttBuf, Error>(b),
                None => Err::<RttBuf, Error>(Error::Stopped),
            },
    {
        if self.local_buf.available_space() == 0 {
            return Err(Error::Full);
        }
        match self.rtt_up_buf {
            Some(b) => Ok(b),
            None => Err(Error::Stopped),
        }
    }

    /// Whether the target's read position still matches the stored one:
    /// `None` where it does; where it does not (the target reset), the
    /// control block address to start again from, or `Stopped` where none
    /// is stored.
    pub fn restart_location(&self, stored: &RttBuf, cur_read_pos: u32) -> (r: Result<
        Option<u32>,
        Error,
    >)
        ensures
            cur_read_pos == stored.read_pos ==> r == Ok::<Option<u32>, Error>(None),
            cur_read_pos != stored.read_pos ==> r == match self.rtt_cb {
                Some(cb) => Ok::<Option<u32>, Error>(Some(cb.location)),
                None => Err::<Option<u32>, Error>(Error::Stopped),
            },
    {
        if cur_read_pos == stored.read_pos {
            return Ok(None);
        }
        match self.rtt_cb {
            Some(cb) => Ok(Some(cb.location)),
            None => Err(Error::Stopped),
        }
    }

    /// Stores the data a poll read from the target, as much as fits in the
    /// local buffer, and moves the up buffer's read position past it,
    /// wrapping at the buffer's size. Returns the new read position to
    /// write back to the target, or `None` where nothing was stored.
    pub fn accept_target_data(&mut self, b: RttBuf, data: &[u8]) -> (r: Option<u32>)
        requires
            min_int(data@.len() as int, old(self).local_buf.free() as int) > 0 ==> b.size > 0
                && b.read_pos + min_int(data@.len() as int, old(self).local_buf.free() as int)
                <= u32::MAX,
        ensures
            final(self).state == old(self).state,
            final(self).rtt_cb == old(self).rtt_cb,
            ({
                let n = min_int(data@.len() as int, old(self).local_buf.free() as int);
                if n > 0 {
                    let new_pos = ((b.read_pos + n) % (b.size as int)) as u32;
                    &&& r == Some(new_pos)
                    &&& final(self).rtt_up_buf == Some(RttBuf { read_pos: new_pos, ..b })
                    &&& final(self).local_buf.contents() == old(self).local_buf.contents()
                        + data@.subrange(0, n)
                } else {
                    &&& r is None
                    &&& final(self).rtt_up_buf == old(self).rtt_up_buf
                    &&& final(self).local_buf == old(self).local_buf
                }
            }),
    {
        let space = self.local_buf.available_space();
        let to_copy = if data.len() < space {
            data.len()
        } else {
            space
        };
        if to_copy > 0 {
            self.local_buf.write_data(&data[0..to_copy]);
            let mut nb = b;
            nb.read_pos = (b.read_pos + to_copy as u32) % b.size;
            self.rtt_up_buf = Some(nb);
            Some(nb.read_pos)
        } else {
            None
        }
    }
}

/// The number of bytes a plan of target reads reads in all.
pub open spec fn plan_total(plan: Seq<(u32, usize)>) -> int
    decreases plan.len(),
{
    if plan.len() == 0 {
        0
    } else {
        plan_total(plan.drop_last()) + plan.last().1
    }
}

/// A poll never reads more than it may: in all, the reads it plans take
/// at most the local free space, at most [`MAX_BYTES_PER_READ`] and at
/// most what the target holds, in whole words; when the target holds any
/// data they take exactly the smallest of those three, rounded down to
/// whole words. The first read starts at the target's read position; a
/// second one is made only where the target's data wraps, starts at the
/// start of its buffer and stays below its write position.
pub proof fn lemma_plan_reads_at_most(b: RttBuf, space: usize)
    requires
        plannable(b),
    ensures
        ({
            let plan = target_read_plan(b, space as int);
            let avail = target_available(b);
            let m = if avail <= space && avail <= 256 {
                avail
            } else if space <= 256 {
                space as int
            } else {
                256
            };
            &&& plan_total(plan) <= space
            &&& plan_total(plan) <= 256
            &&& plan_total(plan) <= avail
            &&& plan_total(plan) % 4 == 0
            &&& b.write_pos != b.read_pos ==> plan_total(plan) == m - m % 4
            &&& b.write_pos == b.read_pos ==> plan.len() == 0
            &&& plan.len() <= 2
            &&& plan.len() >= 1 ==> plan[0].0 == b.data_ptr + b.read_pos
            &&& plan.len() == 2 ==> {
                &&& b.write_pos < b.read_pos
                &&& plan[1].0 == b.data_ptr
                &&& plan[1].1 <= b.write_pos
            }
        }),
{
    let plan = target_read_plan(b, space as int);
    let max_read = min_int(min_int(target_available(b), space as int), MAX_BYTES_PER_READ as int);
    let aligned = max_read - max_read % 4;
    assert(aligned % 4 == 0 && aligned <= max_read && max_read - aligned < 4) by (nonlinear_arith)
        requires aligned == max_read - max_read % 4, max_read >= 0;
    assert(plan.len() == 0 ==> plan_total(plan) == 0);
    if plan.len() == 1 {
        assert(plan.drop_last() =~= Seq::<(u32, usize)>::empty());
        assert(plan_total(plan.drop_last()) == 0);
        assert(plan_total(plan) == plan[0].1);
    }
    if plan.len() == 2 {
        assert(plan.drop_last().drop_last() =~= Seq::<(u32, usize)>::empty());
        assert(plan.drop_last().last() == plan[0]);
        assert(plan_total(plan.drop_last().drop_last()) == 0);
        assert(plan_total(plan.drop_last()) == plan[0].1);
        assert(plan_total(plan) == plan[0].1 + plan[1].1);
    }
}

} // verus!
