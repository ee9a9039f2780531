//! Wire format of message arguments, and verified cursors over a read buffer.
//!
//! A message is `[object id: 4 bytes][opcode: 2 bytes][size: 2 bytes]`
//! followed by `size - 8` bytes of arguments, encoded in schema declaration
//! order.  Integers are little-endian and fixed-width; strings and arrays are
//! length-prefixed and padded to a four-byte boundary; handles travel on a
//! side channel rather than inline.
//!
//! The spec functions `enc_*` define what each argument category looks like on
//! the wire; the `take_*` spec functions define decoding, each returning the
//! decoded value and the remaining bytes, or `None` when the buffer ends
//! before the encoding completes.  The `lemma_take_*_enc` lemmas prove that
//! decoding inverts encoding.  [`BytesCursor`] and [`FdsCursor`] are the
//! executable readers the dispatchers use; every read is specified exactly by
//! the corresponding `take_*` function applied to the unread window.

use vstd::bytes::*;
use vstd::prelude::*;
use vstd::slice::{slice_subrange, slice_to_vec};

use crate::types::Header;

verus! {

/// Bytes of padding that follow `n` payload bytes to reach a four-byte
/// boundary.
pub open spec fn pad4(n: int) -> int {
    if n % 4 == 0 {
        0
    } else {
        4 - n % 4
    }
}

/// A run of `n` zero bytes.
pub open spec fn zeros(n: int) -> Seq<u8> {
    Seq::new(n as nat, |i: int| 0u8)
}

/// Wire form of a fixed-width unsigned integer argument (also used for
/// object-id references, which travel as their numerical value).
pub open spec fn enc_uint(v: u32) -> Seq<u8> {
    spec_u32_to_le_bytes(v)
}

/// Wire form of a string argument: a length prefix counting the text plus its
/// null terminator, the text, the terminator, then padding to a four-byte
/// boundary.
pub open spec fn enc_string(s: Seq<u8>) -> Seq<u8>
    recommends
        s.len() + 1 <= u32::MAX,
{
    enc_uint((s.len() + 1) as u32) + s + seq![0u8] + zeros(pad4(s.len() as int + 1))
}

/// Wire form of an array argument: a length prefix counting the data bytes,
/// the data, then padding to a four-byte boundary.
pub open spec fn enc_array(a: Seq<u8>) -> Seq<u8>
    recommends
        a.len() <= u32::MAX,
{
    enc_uint(a.len() as u32) + a + zeros(pad4(a.len() as int))
}

/// Wire form of a message header.
pub open spec fn enc_header(h: Header) -> Seq<u8> {
    spec_u32_to_le_bytes(h.object_id) + spec_u16_to_le_bytes(h.opcode) + spec_u16_to_le_bytes(
        h.size,
    )
}

/// Wire form of a whole message: header then argument payload, with the
/// header's size field counting both.
pub open spec fn enc_message(object_id: u32, opcode: u16, payload: Seq<u8>) -> Seq<u8>
    recommends
        payload.len() + 8 <= u16::MAX,
{
    enc_header(
        Header { object_id, opcode, size: (payload.len() + 8) as u16 },
    ) + payload
}

/// Decodes a fixed-width unsigned integer from the front of `p`.
pub open spec fn take_u32(p: Seq<u8>) -> Option<(u32, Seq<u8>)> {
    if p.len() >= 4 {
        Some((spec_u32_from_le_bytes(p.take(4)), p.skip(4)))
    } else {
        None
    }
}

/// Decodes a 16-bit integer from the front of `p`.
pub open spec fn take_u16(p: Seq<u8>) -> Option<(u16, Seq<u8>)> {
    if p.len() >= 2 {
        Some((spec_u16_from_le_bytes(p.take(2)), p.skip(2)))
    } else {
        None
    }
}

/// Decodes a message header from the front of `p`.
pub open spec fn take_header(p: Seq<u8>) -> Option<(Header, Seq<u8>)> {
    if p.len() >= 8 {
        Some(
            (
                Header {
                    object_id: spec_u32_from_le_bytes(p.take(4)),
                    opcode: spec_u16_from_le_bytes(p.subrange(4, 6)),
                    size: spec_u16_from_le_bytes(p.subrange(6, 8)),
                },
                p.skip(8),
            ),
        )
    } else {
        None
    }
}

/// Decodes a string argument from the front of `p`: length prefix, text,
/// mandatory null terminator, padding.  Fails if the buffer ends before the
/// padded encoding completes, if the length prefix is zero (no room for the
/// terminator), or if the terminator byte is not null.
pub open spec fn take_string(p: Seq<u8>) -> Option<(Seq<u8>, Seq<u8>)> {
    match take_u32(p) {
        Some((n, q)) => {
            let t = n + pad4(n as int);
            if 1 <= n && t <= q.len() && q[n - 1] == 0 {
                Some((q.take(n - 1), q.skip(t)))
            } else {
                None
            }
        },
        None => None,
    }
}

/// Decodes an array argument from the front of `p`: length prefix, data,
/// padding.  Fails if the buffer ends before the padded encoding completes.
pub open spec fn take_array(p: Seq<u8>) -> Option<(Seq<u8>, Seq<u8>)> {
    match take_u32(p) {
        Some((n, q)) => {
            let t = n + pad4(n as int);
            if t <= q.len() {
                Some((q.take(n as int), q.skip(t)))
            } else {
                None
            }
        },
        None => None,
    }
}

/// Decoding inverts encoding for fixed-width integers: a buffer that starts
/// with `enc_uint(v)` decodes to `v` with exactly the four prefix bytes
/// consumed.
pub proof fn lemma_take_u32_enc(v: u32, rest: Seq<u8>)
    ensures
        take_u32(enc_uint(v) + rest) == Some((v, rest)),
{
    lemma_auto_spec_u32_to_from_le_bytes();
    let p = enc_uint(v) + rest;
    assert(p.take(4) =~= enc_uint(v));
    assert(p.skip(4) =~= rest);
}

/// Decoding inverts encoding for 16-bit integers.
pub proof fn lemma_take_u16_enc(v: u16, rest: Seq<u8>)
    ensures
        take_u16(spec_u16_to_le_bytes(v) + rest) == Some((v, rest)),
{
    lemma_auto_spec_u16_to_from_le_bytes();
    let p = spec_u16_to_le_bytes(v) + rest;
    assert(p.take(2) =~= spec_u16_to_le_bytes(v));
    assert(p.skip(2) =~= rest);
}

/// Decoding inverts encoding for message headers.
pub proof fn lemma_take_header_enc(h: Header, rest: Seq<u8>)
    ensures
        take_header(enc_header(h) + rest) == Some((h, rest)),
{
    lemma_auto_spec_u32_to_from_le_bytes();
    lemma_auto_spec_u16_to_from_le_bytes();
    let p = enc_header(h) + rest;
    assert(p.take(4) =~= spec_u32_to_le_bytes(h.object_id));
    assert(p.subrange(4, 6) =~= spec_u16_to_le_bytes(h.opcode));
    assert(p.subrange(6, 8) =~= spec_u16_to_le_bytes(h.size));
    assert(p.skip(8) =~= rest);
}

/// Decoding inverts encoding for strings: a buffer that starts with
/// `enc_string(s)` decodes to `s` with exactly the padded encoding consumed.
pub proof fn lemma_take_string_enc(s: Seq<u8>, rest: Seq<u8>)
    requires
        s.len() + 1 <= u32::MAX,
    ensures
        take_string(enc_string(s) + rest) == Some((s, rest)),
{
    let n = (s.len() + 1) as u32;
    let body = s + seq![0u8] + zeros(pad4(s.len() as int + 1));
    let p = enc_string(s) + rest;
    assert(p =~= enc_uint(n) + (body + rest));
    lemma_take_u32_enc(n, body + rest);
    let q = body + rest;
    let t = n + pad4(n as int);
    assert(q.len() == t + rest.len());
    assert(q[n - 1] == 0);
    assert(q.take(n - 1) =~= s);
    assert(q.skip(t) =~= rest);
}

/// Decoding inverts encoding for arrays.
pub proof fn lemma_take_array_enc(a: Seq<u8>, rest: Seq<u8>)
    requires
        a.len() <= u32::MAX,
    ensures
        take_array(enc_array(a) + rest) == Some((a, rest)),
{
    let n = a.len() as u32;
    let body = a + zeros(pad4(a.len() as int));
    let p = enc_array(a) + rest;
    assert(p =~= enc_uint(n) + (body + rest));
    lemma_take_u32_enc(n, body + rest);
    let q = body + rest;
    let t = n + pad4(n as int);
    assert(q.len() == t + rest.len());
    assert(q.take(n as int) =~= a);
    assert(q.skip(t) =~= rest);
}

/// Read cursor over the byte payload of a receive buffer.
///
/// The transport positions it at the first unread byte and bounds each
/// decode by the end of the current message, so one message's arguments can
/// never leak into the next.
pub struct BytesCursor {
    buf: Vec<u8>,
    pos: usize,
}

impl BytesCursor {
    /// The whole underlying buffer.
    pub closed spec fn data(self) -> Seq<u8> {
        self.buf@
    }

    /// Current read position.
    pub closed spec fn at(self) -> int {
        self.pos as int
    }

    /// The cursor position never leaves the buffer.
    pub open spec fn wf(self) -> bool {
        0 <= self.at() && self.at() <= self.data().len()
    }

    /// Constructs a cursor at the start of `buf`.
    pub fn new(buf: Vec<u8>) -> (r: Self)
        ensures
            r.wf(),
            r.data() == buf@,
            r.at() == 0,
    {
        BytesCursor { buf, pos: 0 }
    }

    /// Current read position.
    pub fn position(&self) -> (r: usize)
        ensures
            r as int == self.at(),
    {
        self.pos
    }

    /// Total buffer length.
    pub fn len(&self) -> (r: usize)
        ensures
            r as int == self.data().len(),
    {
        self.buf.len()
    }

    /// Moves the read position forward to `target`, skipping any bytes in
    /// between.  Dispatchers use it to leave the cursor exactly at the end of
    /// the current message whatever the outcome of decoding.
    pub fn skip_to(&mut self, target: usize)
        requires
            old(self).wf(),
            old(self).at() <= target as int,
            target as int <= old(self).data().len(),
        ensures
            final(self).wf(),
            final(self).data() == old(self).data(),
            final(self).at() == target as int,
    {
        self.pos = target;
    }

    /// Reads a fixed-width unsigned integer, bounded by `end`.
    pub fn read_u32(&mut self, end: usize) -> (r: Option<u32>)
        requires
            old(self).wf(),
            old(self).at() <= end as int,
            end as int <= old(self).data().len(),
        ensures
            final(self).wf(),
            final(self).data() == old(self).data(),
            ({
                let w = old(self).data().subrange(old(self).at(), end as int);
                match take_u32(w) {
                    Some(p) => r == Some(p.0) && final(self).at() == old(self).at() + (w.len()
                        - p.1.len()),
                    None => r is None && final(self).at() == old(self).at(),
                }
            }),
    {
        let ghost w = self.data().subrange(self.at(), end as int);
        if end - self.pos < 4 {
            return None;
        }
        let sl = slice_subrange(self.buf.as_slice(), self.pos, self.pos + 4);
        let v = u32_from_le_bytes(sl);
        proof {
            assert(w.take(4) =~= sl@);
            assert(w.skip(4).len() == w.len() - 4);
        }
        self.pos = self.pos + 4;
        Some(v)
    }

    /// Reads a 16-bit integer, bounded by `end`.
    pub fn read_u16(&mut self, end: usize) -> (r: Option<u16>)
        requires
            old(self).wf(),
            old(self).at() <= end as int,
            end as int <= old(self).data().len(),
        ensures
            final(self).wf(),
            final(self).data() == old(self).data(),
            ({
                let w = old(self).data().subrange(old(self).at(), end as int);
                match take_u16(w) {
                    Some(p) => r == Some(p.0) && final(self).at() == old(self).at() + (w.len()
                        - p.1.len()),
                    None => r is None && final(self).at() == old(self).at(),
                }
            }),
    {
        let ghost w = self.data().subrange(self.at(), end as int);
        if end - self.pos < 2 {
            return None;
        }
        let sl = slice_subrange(self.buf.as_slice(), self.pos, self.pos + 2);
        let v = u16_from_le_bytes(sl);
        proof {
            assert(w.take(2) =~= sl@);
            assert(w.skip(2).len() == w.len() - 2);
        }
        self.pos = self.pos + 2;
        Some(v)
    }

    /// Reads a message header.  The transport calls this at each message
    /// boundary; the buffer end is the bound since framing is not yet known.
    pub fn read_header(&mut self) -> (r: Option<Header>)
        requires
            old(self).wf(),
        ensures
            final(self).wf(),
            final(self).data() == old(self).data(),
            ({
                let w = old(self).data().skip(old(self).at());
                match take_header(w) {
                    Some(p) => r == Some(p.0) && final(self).at() == old(self).at() + (w.len()
                        - p.1.len()),
                    None => r is None && final(self).at() == old(self).at(),
                }
            }),
    {
        let ghost w = self.data().skip(self.at());
        if self.buf.len() - self.pos < 8 {
            return None;
        }
        let sl_id = slice_subrange(self.buf.as_slice(), self.pos, self.pos + 4);
        let object_id = u32_from_le_bytes(sl_id);
        let sl_op = slice_subrange(self.buf.as_slice(), self.pos + 4, self.pos + 6);
        let opcode = u16_from_le_bytes(sl_op);
        let sl_sz = slice_subrange(self.buf.as_slice(), self.pos + 6, self.pos + 8);
        let size = u16_from_le_bytes(sl_sz);
        proof {
            assert(w.take(4) =~= sl_id@);
            assert(w.subrange(4, 6) =~= sl_op@);
            assert(w.subrange(6, 8) =~= sl_sz@);
            assert(w.skip(8).len() == w.len() - 8);
        }
        self.pos = self.pos + 8;
        Some(Header { object_id, opcode, size })
    }

    /// Reads a string argument, bounded by `end`.  On failure the position is
    /// unchanged; the caller skips to the end of the message.
    pub fn read_string(&mut self, end: usize) -> (r: Option<Vec<u8>>)
        requires
            old(self).wf(),
            old(self).at() <= end as int,
            end as int <= old(self).data().len(),
        ensures
            final(self).wf(),
            final(self).data() == old(self).data(),
            ({
                let w = old(self).data().subrange(old(self).at(), end as int);
                match take_string(w) {
                    Some(p) => r matches Some(v) && v@ == p.0 && final(self).at() == old(self).at()
                        + (w.len() - p.1.len()),
                    None => r is None && final(self).at() == old(self).at(),
                }
            }),
    {
        let ghost w = self.data().subrange(self.at(), end as int);
        let start = self.pos;
        if end - self.pos < 4 {
            return None;
        }
        let sl = slice_subrange(self.buf.as_slice(), self.pos, self.pos + 4);
        let n32 = u32_from_le_bytes(sl);
        proof {
            assert(w.take(4) =~= sl@);
        }
        let ghost q = w.skip(4);
        self.pos = self.pos + 4;
        let n = n32 as usize;
        if n == 0 {
            self.pos = start;
            return None;
        }
        let avail = end - self.pos;
        let rem = n % 4;
        let padn: usize = if rem == 0 {
            0
        } else {
            4 - rem
        };
        if n > avail || padn > avail - n {
            self.pos = start;
            proof {
                assert(q.len() == avail);
                assert(n32 + pad4(n32 as int) > q.len());
            }
            return None;
        }
        let t = n + padn;
        proof {
            assert(q.len() == avail);
            assert(t == n32 + pad4(n32 as int));
            assert(q[n32 - 1] == self.data()[start + 4 + n - 1]);
        }
        let term = *self.buf.get(self.pos + n - 1).unwrap();
        if term != 0 {
            self.pos = start;
            return None;
        }
        let sl2 = slice_subrange(self.buf.as_slice(), self.pos, self.pos + n - 1);
        let v = slice_to_vec(sl2);
        proof {
            assert(q.take(n32 - 1) =~= sl2@);
            assert(q.skip(t as int).len() == q.len() - t);
        }
        self.pos = self.pos + t;
        Some(v)
    }

    /// Reads an array argument, bounded by `end`.  On failure the position is
    /// unchanged; the caller skips to the end of the message.
    pub fn read_array(&mut self, end: usize) -> (r: Option<Vec<u8>>)
        requires
            old(self).wf(),
            old(self).at() <= end as int,
            end as int <= old(self).data().len(),
        ensures
            final(self).wf(),
            final(self).data() == old(self).data(),
            ({
                let w = old(self).data().subrange(old(self).at(), end as int);
                match take_array(w) {
                    Some(p) => r matches Some(v) && v@ == p.0 && final(self).at() == old(self).at()
                        + (w.len() - p.1.len()),
                    None => r is None && final(self).at() == old(self).at(),
                }
            }),
    {
        let ghost w = self.data().subrange(self.at(), end as int);
        let start = self.pos;
        if end - self.pos < 4 {
            return None;
        }
        let sl = slice_subrange(self.buf.as_slice(), self.pos, self.pos + 4);
        let n32 = u32_from_le_bytes(sl);
        proof {
            assert(w.take(4) =~= sl@);
        }
        let ghost q = w.skip(4);
        self.pos = self.pos + 4;
        let n = n32 as usize;
        let avail = end - self.pos;
        let rem = n % 4;
        let padn: usize = if rem == 0 {
            0
        } else {
            4 - rem
        };
        if n > avail || padn > avail - n {
            self.pos = start;
            proof {
                assert(q.len() == avail);
                assert(n32 + pad4(n32 as int) > q.len());
            }
            return None;
        }
        let t = n + padn;
        proof {
            assert(q.len() == avail);
            assert(t == n32 + pad4(n32 as int));
        }
        let sl2 = slice_subrange(self.buf.as_slice(), self.pos, self.pos + n);
        let v = slice_to_vec(sl2);
        proof {
            assert(q.take(n32 as int) =~= sl2@);
            assert(q.skip(t as int).len() == q.len() - t);
        }
        self.pos = self.pos + t;
        Some(v)
    }
}

/// Read cursor over the out-of-band handles that accompanied a receive
/// buffer.  Handle-typed arguments consume from here instead of the byte
/// payload.
pub struct FdsCursor {
    fds: Vec<i32>,
    pos: usize,
}

impl FdsCursor {
    /// All handles in arrival order.
    pub closed spec fn data(self) -> Seq<i32> {
        self.fds@
    }

    /// Number of handles already consumed.
    pub closed spec fn at(self) -> int {
        self.pos as int
    }

    /// The cursor position never leaves the handle list.
    pub open spec fn wf(self) -> bool {
        0 <= self.at() && self.at() <= self.data().len()
    }

    /// Constructs a cursor at the first handle.
    pub fn new(fds: Vec<i32>) -> (r: Self)
        ensures
            r.wf(),
            r.data() == fds@,
            r.at() == 0,
    {
        FdsCursor { fds, pos: 0 }
    }

    /// Number of handles consumed so far.
    pub fn position(&self) -> (r: usize)
        ensures
            r as int == self.at(),
    {
        self.pos
    }

    /// Consumes the next handle, or fails if none is left.
    pub fn read_fd(&mut self) -> (r: Option<i32>)
        requires
            old(self).wf(),
        ensures
            final(self).wf(),
            final(self).data() == old(self).data(),
            if old(self).at() < old(self).data().len() {
                r == Some(old(self).data()[old(self).at()]) && final(self).at() == old(self).at()
                    + 1
            } else {
                r is None && final(self).at() == old(self).at()
            },
    {
        if self.pos < self.fds.len() {
            let v = *self.fds.get(self.pos).unwrap();
            self.pos = self.pos + 1;
            Some(v)
        } else {
            None
        }
    }
}

/// Appends the little-endian bytes of `v` to `out`.
pub fn write_u32(out: &mut Vec<u8>, v: u32)
    ensures
        final(out)@ == old(out)@ + enc_uint(v),
{
    let mut b = u32_to_le_bytes(v);
    out.append(&mut b);
}

/// Appends the little-endian bytes of `v` to `out`.
pub fn write_u16(out: &mut Vec<u8>, v: u16)
    ensures
        final(out)@ == old(out)@ + spec_u16_to_le_bytes(v),
{
    let mut b = u16_to_le_bytes(v);
    out.append(&mut b);
}

/// Appends a copy of `s` to `out`.
pub fn write_bytes(out: &mut Vec<u8>, s: &Vec<u8>)
    ensures
        final(out)@ == old(out)@ + s@,
{
    let ghost base = out@;
    let mut i: usize = 0;
    while i < s.len()
        invariant
            i <= s.len(),
            out@ == base + s@.take(i as int),
        decreases s.len() - i,
    {
        let b = *s.get(i).unwrap();
        out.push(b);
        i = i + 1;
        proof {
            assert(base + s@.take(i as int) =~= (base + s@.take(i - 1)).push(b));
        }
    }
    proof {
        assert(base + s@.take(s@.len() as int) =~= base + s@);
    }
}

/// Appends `n` zero bytes to `out`.
fn write_zeros(out: &mut Vec<u8>, n: usize)
    ensures
        final(out)@ == old(out)@ + zeros(n as int),
{
    let ghost base = out@;
    let mut i: usize = 0;
    while i < n
        invariant
            i <= n,
            out@ == base + zeros(i as int),
        decreases n - i,
    {
        out.push(0);
        i = i + 1;
        proof {
            assert(base + zeros(i as int) =~= (base + zeros(i - 1)).push(0u8));
        }
    }
}

/// Appends the wire form of a string argument to `out`.
pub fn write_string(out: &mut Vec<u8>, s: &Vec<u8>)
    requires
        s@.len() + 1 <= u32::MAX,
    ensures
        final(out)@ == old(out)@ + enc_string(s@),
{
    let ghost base = out@;
    let n = s.len() + 1;
    write_u32(out, n as u32);
    write_bytes(out, s);
    out.push(0);
    let rem = n % 4;
    let padn: usize = if rem == 0 {
        0
    } else {
        4 - rem
    };
    write_zeros(out, padn);
    proof {
        assert(padn as int == pad4(s@.len() as int + 1));
        assert(out@ =~= base + enc_string(s@));
    }
}

/// Appends the wire form of an array argument to `out`.
pub fn write_array(out: &mut Vec<u8>, a: &Vec<u8>)
    requires
        a@.len() <= u32::MAX,
    ensures
        final(out)@ == old(out)@ + enc_array(a@),
{
    let ghost base = out@;
    let n = a.len();
    write_u32(out, n as u32);
    write_bytes(out, a);
    let rem = n % 4;
    let padn: usize = if rem == 0 {
        0
    } else {
        4 - rem
    };
    write_zeros(out, padn);
    proof {
        assert(padn as int == pad4(a@.len() as int));
        assert(out@ =~= base + enc_array(a@));
    }
}

/// Builds a whole wire message from a destination object, an opcode and an
/// already encoded argument payload.
pub fn encode_message(object_id: u32, opcode: u16, payload: &Vec<u8>) -> (r: Vec<u8>)
    requires
        payload@.len() + 8 <= u16::MAX,
    ensures
        r@ == enc_message(object_id, opcode, payload@),
{
    let mut out: Vec<u8> = Vec::new();
    write_u32(&mut out, object_id);
    write_u16(&mut out, opcode);
    write_u16(&mut out, (payload.len() + 8) as u16);
    write_bytes(&mut out, payload);
    proof {
        assert(out@ =~= enc_message(object_id, opcode, payload@));
    }
    out
}

} // verus!
