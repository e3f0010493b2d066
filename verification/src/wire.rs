//! The wire format: little-endian 32-bit words, strings and arrays padded to
//! words, and the cursor that reads them back.
use crate::types::buffer::{align32, round_up, Buffer};
use vstd::prelude::*;
use vstd::slice::{slice_subrange, slice_to_vec};
use vstd::utf8::{decode_utf8, encode_utf8, valid_utf8};

verus! {

/// Longest message the 16-bit length field of a header can announce.
pub const MAX_MSG_SIZE: u16 = 65532;

/// The four bytes of a word, least significant first.
pub open spec fn word_bytes(v: u32) -> Seq<u8> {
    seq![v as u8, (v >> 8) as u8, (v >> 16) as u8, (v >> 24) as u8]
}

/// The word made of four bytes, least significant first.
pub open spec fn word_of(b0: u8, b1: u8, b2: u8, b3: u8) -> u32 {
    (b0 as u32) | ((b1 as u32) << 8) | ((b2 as u32) << 16) | ((b3 as u32) << 24)
}

/// The word stored at `pos` in `b`.
pub open spec fn word_at(b: Seq<u8>, pos: int) -> u32 {
    word_of(b[pos], b[pos + 1], b[pos + 2], b[pos + 3])
}

/// A signed integer travels as the word with the same bits.
pub open spec fn int_bytes(v: i32) -> Seq<u8> {
    word_bytes(v as u32)
}

/// The signed integer stored at `pos` in `b`.
pub open spec fn int_at(b: Seq<u8>, pos: int) -> i32 {
    word_at(b, pos) as i32
}

/// `n` zero bytes.
pub open spec fn zeros(n: int) -> Seq<u8> {
    Seq::new(n as nat, |i: int| 0u8)
}

/// A length-prefixed field: the length word, the body, zero padding up to
/// the next word boundary.
pub open spec fn prefixed(len: int, body: Seq<u8>) -> Seq<u8> {
    word_bytes(len as u32) + body + zeros(round_up(len, 4) - body.len())
}

/// A string on the wire: its length counts the terminating NUL, which is the
/// first byte of the padding.
pub open spec fn string_bytes(s: Seq<char>) -> Seq<u8> {
    prefixed(encode_utf8(s).len() as int + 1, encode_utf8(s))
}

/// A byte array on the wire.
pub open spec fn array_bytes(a: Seq<u8>) -> Seq<u8> {
    prefixed(a.len() as int, a)
}

/// Splits a word into its bytes.
pub fn word_to_bytes(v: u32) -> (b: [u8; 4])
    ensures
        b@ == word_bytes(v),
{
    let b = [
        #[verifier::truncate]
        (v as u8),
        #[verifier::truncate]
        ((v >> 8) as u8),
        #[verifier::truncate]
        ((v >> 16) as u8),
        #[verifier::truncate]
        ((v >> 24) as u8),
    ];
    b
}

/// Joins four bytes into a word.
pub fn word_from_bytes(b0: u8, b1: u8, b2: u8, b3: u8) -> (v: u32)
    ensures
        v == word_of(b0, b1, b2, b3),
{
    (b0 as u32) | ((b1 as u32) << 8) | ((b2 as u32) << 16) | ((b3 as u32) << 24)
}

/// The word with the bits of a signed integer.
pub fn int_to_word(v: i32) -> (w: u32)
    ensures
        w == v as u32,
{
    #[verifier::truncate]
    (v as u32)
}

/// The signed integer with the bits of a word.
pub fn word_to_int(w: u32) -> (v: i32)
    ensures
        v == w as i32,
{
    #[verifier::truncate]
    (w as i32)
}

/// A word written and read back is the same word.
pub proof fn lemma_word_round_trip(v: u32)
    ensures
        word_bytes(v).len() == 4,
        word_at(word_bytes(v), 0) == v,
{
    assert(word_of(v as u8, (v >> 8) as u8, (v >> 16) as u8, (v >> 24) as u8) == v)
        by (bit_vector);
}

/// Four bytes read as a word and written back are the same bytes.
pub proof fn lemma_bytes_round_trip(b0: u8, b1: u8, b2: u8, b3: u8)
    ensures
        word_bytes(word_of(b0, b1, b2, b3)) == seq![b0, b1, b2, b3],
{
    let v = word_of(b0, b1, b2, b3);
    assert(v as u8 == b0 && (v >> 8) as u8 == b1 && (v >> 16) as u8 == b2 && (v >> 24) as u8
        == b3) by (bit_vector)
        requires
            v == word_of(b0, b1, b2, b3),
    ;
}

/// A signed integer written and read back is the same integer.
pub proof fn lemma_int_round_trip(v: i32)
    ensures
        int_bytes(v).len() == 4,
        int_at(int_bytes(v), 0) == v,
{
    lemma_word_round_trip(v as u32);
    assert((v as u32) as i32 == v) by (bit_vector);
}

/// What reading a field can run into.
#[derive(Debug, Clone, Copy, PartialEq, Eq, Structural)]
pub enum WireError {
    /// The field does not fit in what is left of the message.
    Overrun,
    /// A string is not well-formed UTF-8.
    InvalidUtf8,
    /// The field is a file descriptor and the queue holds none.
    NoFd,
}

/// A place in a message under decoding: offsets into the payload bytes and
/// into the received file descriptors, the end of the message, and the first
/// fault met so far. Once a fault is met the cursor stays where it is.
pub ghost struct Cursor {
    pub pos: int,
    pub end: int,
    pub fd_pos: int,
    pub fault: Option<WireError>,
}

impl Cursor {
    /// The cursor stopped at `e`, unless it had stopped before.
    pub open spec fn fail(self, e: WireError) -> Cursor {
        if self.fault is Some {
            self
        } else {
            Cursor { fault: Some(e), ..self }
        }
    }

    /// The cursor moved `n` bytes on, if that many are left.
    pub open spec fn skip(self, n: int) -> Cursor {
        if self.fault is Some {
            self
        } else if self.pos + n > self.end {
            self.fail(WireError::Overrun)
        } else {
            Cursor { pos: self.pos + n, ..self }
        }
    }

    /// Past one word.
    pub open spec fn word(self) -> Cursor {
        self.skip(4)
    }

    /// The word under the cursor.
    pub open spec fn word_val(self, b: Seq<u8>) -> u32 {
        word_at(b, self.pos)
    }

    /// The signed integer under the cursor.
    pub open spec fn int_val(self, b: Seq<u8>) -> i32 {
        int_at(b, self.pos)
    }

    /// Past one byte array: its length word, then the body rounded up to
    /// whole words.
    pub open spec fn array(self, b: Seq<u8>) -> Cursor {
        self.word().skip(round_up(self.word_val(b) as int, 4))
    }

    /// The body of the byte array under the cursor.
    pub open spec fn array_val(self, b: Seq<u8>) -> Seq<u8> {
        b.subrange(self.pos + 4, self.pos + 4 + self.word_val(b))
    }

    /// The bytes of the string under the cursor, without the terminator.
    /// A length of zero stands for the empty string.
    pub open spec fn string_body(self, b: Seq<u8>) -> Seq<u8> {
        if self.word_val(b) == 0 {
            Seq::empty()
        } else {
            b.subrange(self.pos + 4, self.pos + 4 + self.word_val(b) - 1)
        }
    }

    /// Past one string; its body has to be UTF-8.
    pub open spec fn string(self, b: Seq<u8>) -> Cursor {
        let after = self.array(b);
        if after.fault is None && !valid_utf8(self.string_body(b)) {
            self.fail(WireError::InvalidUtf8)
        } else {
            after
        }
    }

    /// The text of the string under the cursor.
    pub open spec fn string_val(self, b: Seq<u8>) -> Seq<char> {
        decode_utf8(self.string_body(b))
    }

    /// Past one file descriptor: nothing in the payload, four bytes of the
    /// queue.
    pub open spec fn fd(self, fds: Seq<u8>) -> Cursor {
        if self.fault is Some {
            self
        } else if self.fd_pos + 4 > fds.len() {
            self.fail(WireError::NoFd)
        } else {
            Cursor { fd_pos: self.fd_pos + 4, ..self }
        }
    }

    /// The file descriptor at the head of the queue.
    pub open spec fn fd_val(self, fds: Seq<u8>) -> i32 {
        int_at(fds, self.fd_pos)
    }
}

/// `String::from_utf8`: the bytes are accepted exactly when they are
/// well-formed UTF-8, and the string then holds the text they encode.
#[verifier::external_body]
fn string_from_utf8(bytes: Vec<u8>) -> (r: Option<String>)
    ensures
        r is Some <==> valid_utf8(bytes@),
        r matches Some(s) ==> s@ == decode_utf8(bytes@),
{
    match String::from_utf8(bytes) {
        Ok(s) => Some(s),
        Err(_) => None,
    }
}

/// Reads the fields of one message in order.
pub struct Reader<'a> {
    buf: &'a [u8],
    fds: &'a [u8],
    pos: usize,
    end: usize,
    fd_pos: usize,
}

impl<'a> Reader<'a> {
    /// The payload bytes being read.
    pub closed spec fn bytes(&self) -> Seq<u8> {
        self.buf@
    }

    /// The queue of received file descriptors, four bytes each.
    pub closed spec fn fd_bytes(&self) -> Seq<u8> {
        self.fds@
    }

    /// Where the reader stands.
    pub closed spec fn cursor(&self) -> Cursor {
        Cursor { pos: self.pos as int, end: self.end as int, fd_pos: self.fd_pos as int, fault: None }
    }

    /// The reader has met no fault and stays inside the message and inside
    /// both byte strings.
    pub open spec fn wf(&self) -> bool {
        &&& self.cursor().fault is None
        &&& 0 <= self.cursor().pos <= self.cursor().end <= self.bytes().len()
        &&& 0 <= self.cursor().fd_pos <= self.fd_bytes().len()
    }

    /// A reader of `buf[pos..end]` that takes file descriptors from
    /// `fds[fd_pos..]`.
    pub fn new(buf: &'a [u8], pos: usize, end: usize, fds: &'a [u8], fd_pos: usize) -> (r: Self)
        requires
            pos <= end <= buf@.len(),
            fd_pos <= fds@.len(),
        ensures
            r.wf(),
            r.bytes() == buf@,
            r.fd_bytes() == fds@,
            r.cursor() == (Cursor { pos: pos as int, end: end as int, fd_pos: fd_pos as int, fault: None }),
    {
        Reader { buf, fds, pos, end, fd_pos }
    }

    /// Offset of the next unread payload byte.
    pub fn position(&self) -> (p: usize)
        ensures
            p == self.cursor().pos,
    {
        self.pos
    }

    /// Offset of the next unread byte of the file-descriptor queue.
    pub fn fd_position(&self) -> (p: usize)
        ensures
            p == self.cursor().fd_pos,
    {
        self.fd_pos
    }

    /// Reads one word.
    pub fn get_uint(&mut self) -> (r: Result<u32, WireError>)
        requires
            old(self).wf(),
        ensures
            final(self).wf(),
            final(self).bytes() == old(self).bytes(),
            final(self).fd_bytes() == old(self).fd_bytes(),
            match r {
                Ok(v) => final(self).cursor() == old(self).cursor().word() && v == old(self).cursor().word_val(old(self).bytes()),
                Err(e) => old(self).cursor().word().fault == Some(e) && final(self).cursor()
                    == old(self).cursor(),
            },
    {
        if self.end - self.pos < 4 {
            return Err(WireError::Overrun);
        }
        let p = self.pos;
        let v = word_from_bytes(self.buf[p], self.buf[p + 1], self.buf[p + 2], self.buf[p + 3]);
        self.pos = p + 4;
        Ok(v)
    }

    /// Reads one signed integer.
    pub fn get_int(&mut self) -> (r: Result<i32, WireError>)
        requires
            old(self).wf(),
        ensures
            final(self).wf(),
            final(self).bytes() == old(self).bytes(),
            final(self).fd_bytes() == old(self).fd_bytes(),
            match r {
                Ok(v) => final(self).cursor() == old(self).cursor().word() && v == old(self).cursor().int_val(old(self).bytes()),
                Err(e) => old(self).cursor().word().fault == Some(e) && final(self).cursor()
                    == old(self).cursor(),
            },
    {
        match self.get_uint() {
            Ok(w) => Ok(word_to_int(w)),
            Err(e) => Err(e),
        }
    }

    /// Reads one file descriptor from the head of the queue.
    pub fn get_fd(&mut self) -> (r: Result<i32, WireError>)
        requires
            old(self).wf(),
        ensures
            final(self).wf(),
            final(self).bytes() == old(self).bytes(),
            final(self).fd_bytes() == old(self).fd_bytes(),
            match r {
                Ok(v) => final(self).cursor() == old(self).cursor().fd(old(self).fd_bytes()) && v == old(self).cursor().fd_val(old(self).fd_bytes()),
                Err(e) => old(self).cursor().fd(old(self).fd_bytes()).fault == Some(e) && final(self).cursor() == old(self).cursor(),
            },
    {
        if self.fds.len() - self.fd_pos < 4 {
            return Err(WireError::NoFd);
        }
        let p = self.fd_pos;
        let w = word_from_bytes(self.fds[p], self.fds[p + 1], self.fds[p + 2], self.fds[p + 3]);
        self.fd_pos = p + 4;
        Ok(word_to_int(w))
    }

    /// Reads one byte array.
    pub fn get_vec(&mut self) -> (r: Result<Vec<u8>, WireError>)
        requires
            old(self).wf(),
        ensures
            final(self).wf(),
            final(self).bytes() == old(self).bytes(),
            final(self).fd_bytes() == old(self).fd_bytes(),
            match r {
                Ok(v) => final(self).cursor() == old(self).cursor().array(old(self).bytes()) && v@
                    == old(self).cursor().array_val(old(self).bytes()),
                Err(e) => old(self).cursor().array(old(self).bytes()).fault == Some(e) && final(self).cursor() == old(self).cursor(),
            },
    {
        if self.end - self.pos < 4 {
            return Err(WireError::Overrun);
        }
        let p = self.pos;
        let len = word_from_bytes(self.buf[p], self.buf[p + 1], self.buf[p + 2], self.buf[p + 3]);
        let left = self.end - (p + 4);
        if len as usize > left {
            return Err(WireError::Overrun);
        }
        let n = len as usize;
        let padded = pad_len(n);
        if padded > left {
            return Err(WireError::Overrun);
        }
        let body = slice_to_vec(slice_subrange(self.buf, p + 4, p + 4 + n));
        self.pos = p + 4 + padded;
        Ok(body)
    }

    /// Reads one string.
    pub fn get_str(&mut self) -> (r: Result<String, WireError>)
        requires
            old(self).wf(),
        ensures
            final(self).wf(),
            final(self).bytes() == old(self).bytes(),
            final(self).fd_bytes() == old(self).fd_bytes(),
            match r {
                Ok(s) => final(self).cursor() == old(self).cursor().string(old(self).bytes()) && s@
                    == old(self).cursor().string_val(old(self).bytes()),
                Err(e) => old(self).cursor().string(old(self).bytes()).fault == Some(e) && final(self).cursor() == old(self).cursor(),
            },
    {
        if self.end - self.pos < 4 {
            return Err(WireError::Overrun);
        }
        let p = self.pos;
        let len = word_from_bytes(self.buf[p], self.buf[p + 1], self.buf[p + 2], self.buf[p + 3]);
        let left = self.end - (p + 4);
        if len as usize > left {
            return Err(WireError::Overrun);
        }
        let n = len as usize;
        let padded = pad_len(n);
        if padded > left {
            return Err(WireError::Overrun);
        }
        let body_len = if n == 0 { 0 } else { n - 1 };
        let body = slice_to_vec(slice_subrange(self.buf, p + 4, p + 4 + body_len));
        match string_from_utf8(body) {
            Some(s) => {
                self.pos = p + 4 + padded;
                Ok(s)
            },
            None => Err(WireError::InvalidUtf8),
        }
    }
}

/// Whether two strings hold the same text.
pub fn str_eq(a: &str, b: &str) -> (r: bool)
    ensures
        r == (a@ == b@),
{
    let x = a.as_bytes();
    let y = b.as_bytes();
    if x.len() != y.len() {
        return false;
    }
    let mut i: usize = 0;
    while i < x.len()
        invariant
            i <= x@.len(),
            x@.len() == y@.len(),
            x@ == encode_utf8(a@),
            y@ == encode_utf8(b@),
            forall|j: int| 0 <= j < i ==> x@[j] == y@[j],
        decreases x@.len() - i,
    {
        if x[i] != y[i] {
            return false;
        }
        i += 1;
    }
    proof {
        assert(x@ =~= y@);
        vstd::utf8::encode_utf8_decode_utf8(a@);
        vstd::utf8::encode_utf8_decode_utf8(b@);
    }
    true
}

/// Number of bytes a string takes on the wire.
pub open spec fn string_size(s: Seq<char>) -> int {
    4 + round_up(encode_utf8(s).len() as int + 1, 4)
}

/// Number of bytes a byte array takes on the wire.
pub open spec fn array_size(a: Seq<u8>) -> int {
    4 + round_up(a.len() as int, 4)
}

/// The size of an encoded string, and that it is whole words ending in NUL.
pub proof fn lemma_string_bytes(s: Seq<char>)
    ensures
        string_bytes(s).len() == string_size(s),
        string_size(s) % 4 == 0,
        string_size(s) >= 8,
        string_bytes(s)[4 + encode_utf8(s).len() as int] == 0,
        string_bytes(s).last() == 0,
{
}

/// The size of an encoded byte array, and that it is whole words.
pub proof fn lemma_array_bytes(a: Seq<u8>)
    ensures
        array_bytes(a).len() == array_size(a),
        array_size(a) % 4 == 0,
        array_size(a) >= 4,
{
}

/// A cursor at the start of `b` with all of `b` before it.
pub open spec fn start_of(b: Seq<u8>) -> Cursor {
    Cursor { pos: 0, end: b.len() as int, fd_pos: 0, fault: None }
}

/// A byte array written into a fresh buffer and read back is the same
/// array, and the reader ends where the writer did.
pub proof fn lemma_array_round_trip(a: Seq<u8>)
    requires
        a.len() <= u32::MAX,
    ensures
        start_of(array_bytes(a)).array(array_bytes(a)).fault is None,
        start_of(array_bytes(a)).array(array_bytes(a)).pos == array_bytes(a).len(),
        start_of(array_bytes(a)).array_val(array_bytes(a)) == a,
{
    lemma_word_round_trip(a.len() as u32);
}

/// A string written into a fresh buffer and read back is the same string,
/// and the reader ends where the writer did.
pub proof fn lemma_string_round_trip(s: Seq<char>)
    requires
        encode_utf8(s).len() < u32::MAX,
    ensures
        start_of(string_bytes(s)).string(string_bytes(s)).fault is None,
        start_of(string_bytes(s)).string(string_bytes(s)).pos == string_bytes(s).len(),
        start_of(string_bytes(s)).string_val(string_bytes(s)) == s,
{
    let b = string_bytes(s);
    let body = encode_utf8(s);
    lemma_word_round_trip((body.len() + 1) as u32);
    assert(start_of(b).string_body(b) =~= body);
    vstd::utf8::encode_utf8_valid_utf8(s);
    vstd::utf8::encode_utf8_decode_utf8(s);
}

/// Appends one word.
pub fn write_uint<const N: usize>(buf: &mut Buffer<N>, u: u32)
    requires
        old(buf)@.len() + 4 <= N,
    ensures
        final(buf)@ == old(buf)@ + word_bytes(u),
{
    let b = word_to_bytes(u);
    buf.extend(b.as_slice());
}

/// Appends one signed integer.
pub fn write_int<const N: usize>(buf: &mut Buffer<N>, i: i32)
    requires
        old(buf)@.len() + 4 <= N,
    ensures
        final(buf)@ == old(buf)@ + int_bytes(i),
{
    write_uint(buf, int_to_word(i));
}

/// Appends `n` zero bytes.
fn write_zeros<const N: usize>(buf: &mut Buffer<N>, n: usize)
    requires
        old(buf)@.len() + n <= N,
    ensures
        final(buf)@ == old(buf)@ + zeros(n as int),
{
    let mut i: usize = 0;
    while i < n
        invariant
            i <= n,
            old(buf)@.len() + n <= N,
            buf@ == old(buf)@ + zeros(i as int),
        decreases n - i,
    {
        buf.push(0u8);
        i += 1;
    }
}

/// Number of bytes `s` takes on the wire, if that fits in one message.
pub fn string_wire_len(s: &str) -> (r: Option<usize>)
    ensures
        r matches Some(n) ==> n == string_size(s@) && n <= MAX_MSG_SIZE,
        r is None <==> string_size(s@) > MAX_MSG_SIZE,
{
    let n = s.as_bytes().len();
    if n > 65527 {
        None
    } else {
        Some(4 + align32(n + 1) as usize)
    }
}

/// Number of bytes `a` takes on the wire, if that fits in one message.
pub fn array_wire_len(a: &[u8]) -> (r: Option<usize>)
    ensures
        r matches Some(n) ==> n == array_size(a@) && n <= MAX_MSG_SIZE,
        r is None <==> array_size(a@) > MAX_MSG_SIZE,
{
    let n = a.len();
    if n > 65532 - 4 {
        None
    } else {
        Some(4 + align32(n) as usize)
    }
}

/// Appends a string: the length with its NUL, the UTF-8 bytes, the NUL and
/// zero padding up to the next word boundary.
pub fn write_string<const N: usize>(buf: &mut Buffer<N>, s: &str)
    requires
        string_size(s@) <= MAX_MSG_SIZE,
        old(buf)@.len() + string_size(s@) <= N,
    ensures
        final(buf)@ == old(buf)@ + string_bytes(s@),
{
    let body = s.as_bytes();
    let len_bytes = body.len() + 1;
    let padded_len = align32(len_bytes) as usize;
    write_uint(buf, len_bytes as u32);
    buf.extend(body);
    write_zeros(buf, padded_len - body.len());
}

/// Appends a byte array: its length, the bytes, and zero padding up to the
/// next word boundary.
pub fn write_array<const N: usize>(buf: &mut Buffer<N>, v: &[u8])
    requires
        array_size(v@) <= MAX_MSG_SIZE,
        old(buf)@.len() + array_size(v@) <= N,
    ensures
        final(buf)@ == old(buf)@ + array_bytes(v@),
{
    let len = v.len();
    let padded_len = align32(len) as usize;
    write_uint(buf, len as u32);
    buf.extend(v);
    write_zeros(buf, padded_len - len);
}

/// `n` rounded up to whole words, for lengths that may exceed a message.
fn pad_len(n: usize) -> (r: usize)
    requires
        n <= usize::MAX - 3,
    ensures
        r == round_up(n as int, 4),
        r >= n,
{
    ((n + 3) / 4) * 4
}

} // verus!
