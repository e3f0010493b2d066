//! Control messages: the constants of the socket layer, and file
//! descriptors framed as `SCM_RIGHTS` ancillary data.
use crate::types::buffer::{alignptr, lemma_round_up, round_up, spec_ptr_size, Buffer};
use crate::wire::{
    int_at, int_bytes, lemma_int_round_trip, lemma_word_round_trip, word_at,
    word_bytes, word_from_bytes, word_to_int, write_int, write_uint, zeros,
};
use vstd::prelude::*;
use vstd::slice::slice_subrange;

verus! {

/// Control message type: the payload is a list of file descriptors.
pub const SCM_RIGHTS: i32 = 1;

pub const MSG_OOB: i32 = 1;

pub const MSG_PEEK: i32 = 2;

pub const MSG_TRUNC: i32 = 16;

pub const MSG_WAITALL: i32 = 64;

pub const MSG_DONTWAIT: i32 = 128;

pub const MSG_CMSG_CLOEXEC: i32 = 262144;

/// Set by the kernel when control data did not fit the buffer offered.
pub const MSG_CTRUNC: i32 = 32;

/// Control message level: the socket itself.
pub const SOL_SOCKET: i32 = 65535;

pub const EAGAIN: i32 = 35;

/// Bytes taken by the three fields of a control message header.
pub const CMSG_FIELDS: usize = 12;

/// The header in front of each control message.
#[derive(Debug, Copy, Clone)]
pub struct CmsgHdr {
    /// Length of the message in bytes: the header as padded, then the
    /// payload without padding.
    pub cmsg_len: u32,
    /// The protocol the message belongs to.
    pub cmsg_level: i32,
    /// What the payload is.
    pub cmsg_type: i32,
}

/// Size of a header, padded to pointer width.
pub open spec fn spec_hdr_size() -> int {
    round_up(CMSG_FIELDS as int, spec_ptr_size())
}

/// Size of the payload of one file descriptor, padded to pointer width.
pub open spec fn spec_fd_slot() -> int {
    round_up(4, spec_ptr_size())
}

impl CmsgHdr {
    /// The header as it stands in a control buffer.
    pub open spec fn spec_bytes(self) -> Seq<u8> {
        word_bytes(self.cmsg_len) + int_bytes(self.cmsg_level) + int_bytes(self.cmsg_type) + zeros(
            spec_hdr_size() - CMSG_FIELDS,
        )
    }

    /// The header of a message that carries one file descriptor.
    pub open spec fn for_fd() -> CmsgHdr {
        CmsgHdr {
            cmsg_len: (spec_hdr_size() + 4) as u32,
            cmsg_level: SOL_SOCKET,
            cmsg_type: SCM_RIGHTS,
        }
    }

    /// The header whose three fields stand at `pos` in `c`.
    pub open spec fn spec_at(c: Seq<u8>, pos: int) -> CmsgHdr {
        CmsgHdr {
            cmsg_len: word_at(c, pos),
            cmsg_level: int_at(c, pos + 4),
            cmsg_type: int_at(c, pos + 8),
        }
    }

    /// Whether the message carries file descriptors.
    pub open spec fn spec_is_rights(self) -> bool {
        self.cmsg_level == SOL_SOCKET && self.cmsg_type == SCM_RIGHTS
    }

    /// Whether the message carries file descriptors.
    pub fn is_rights(&self) -> (r: bool)
        ensures
            r == self.spec_is_rights(),
    {
        self.cmsg_level == SOL_SOCKET && self.cmsg_type == SCM_RIGHTS
    }

    /// Appends the header, padded to pointer width.
    pub fn write<const N: usize>(&self, buf: &mut Buffer<N>)
        requires
            old(buf)@.len() + spec_hdr_size() <= N,
        ensures
            final(buf)@ == old(buf)@ + self.spec_bytes(),
    {
        proof {
            lemma_sizes();
        }
        write_uint(buf, self.cmsg_len);
        write_int(buf, self.cmsg_level);
        write_int(buf, self.cmsg_type);
        pad(buf, alignptr(CMSG_FIELDS) - CMSG_FIELDS);
    }

    /// Reads the three fields of the header that stands at `pos`.
    pub fn read(control: &[u8], pos: usize) -> (h: CmsgHdr)
        requires
            pos + CMSG_FIELDS <= control@.len(),
        ensures
            h == Self::spec_at(control@, pos as int),
    {
        CmsgHdr {
            cmsg_len: word_from_bytes(
                control[pos],
                control[pos + 1],
                control[pos + 2],
                control[pos + 3],
            ),
            cmsg_level: word_to_int(
                word_from_bytes(
                    control[pos + 4],
                    control[pos + 5],
                    control[pos + 6],
                    control[pos + 7],
                ),
            ),
            cmsg_type: word_to_int(
                word_from_bytes(
                    control[pos + 8],
                    control[pos + 9],
                    control[pos + 10],
                    control[pos + 11],
                ),
            ),
        }
    }
}

/// The control message that carries `fd`.
pub open spec fn fd_cmsg(fd: i32) -> Seq<u8> {
    CmsgHdr::for_fd().spec_bytes() + int_bytes(fd) + zeros(spec_fd_slot() - 4)
}

/// The control messages that carry `fds`, one each, in order.
pub open spec fn fds_cmsgs(fds: Seq<i32>) -> Seq<u8>
    decreases fds.len(),
{
    if fds.len() == 0 {
        Seq::empty()
    } else {
        fd_cmsg(fds[0]) + fds_cmsgs(fds.drop_first())
    }
}

/// The queue of received descriptors that holds `fds`: four bytes each.
pub open spec fn fds_bytes(fds: Seq<i32>) -> Seq<u8>
    decreases fds.len(),
{
    if fds.len() == 0 {
        Seq::empty()
    } else {
        int_bytes(fds[0]) + fds_bytes(fds.drop_first())
    }
}

/// The descriptor bytes carried by the control messages of `c` from `pos`
/// on: the payloads of the `SCM_RIGHTS` messages, in the order they stand.
/// Other messages are passed over; a header that does not fit ends the walk.
/// Each message starts at the next multiple of the pointer width after the
/// one before.
pub open spec fn cmsg_fds(c: Seq<u8>, pos: int) -> Seq<u8>
    decreases c.len() - pos,
    via cmsg_fds_decreases
{
    if pos < 0 || pos + spec_hdr_size() + 4 > c.len() {
        Seq::empty()
    } else {
        let hdr = CmsgHdr::spec_at(c, pos);
        let len = hdr.cmsg_len as int;
        if len < spec_hdr_size() || pos + len > c.len() {
            Seq::empty()
        } else {
            let here = if hdr.spec_is_rights() {
                c.subrange(pos + spec_hdr_size(), pos + len)
            } else {
                Seq::empty()
            };
            let next = pos + round_up(len, spec_ptr_size());
            if next > c.len() {
                here
            } else {
                here + cmsg_fds(c, next)
            }
        }
    }
}

#[via_fn]
proof fn cmsg_fds_decreases(c: Seq<u8>, pos: int) {
    lemma_sizes();
    if !(pos < 0 || pos + spec_hdr_size() + 4 > c.len()) {
        lemma_round_up(word_at(c, pos) as int, spec_ptr_size());
    }
}

proof fn lemma_sizes()
    ensures
        spec_ptr_size() == 4 || spec_ptr_size() == 8,
        spec_ptr_size() == 8 ==> spec_hdr_size() == 16 && spec_fd_slot() == 8,
        spec_ptr_size() == 4 ==> spec_hdr_size() == 12 && spec_fd_slot() == 4,
        round_up(spec_hdr_size() + 4, spec_ptr_size()) == spec_hdr_size() + spec_fd_slot(),
{
    assert(usize::BITS == 32 || usize::BITS == 64);
}

/// One control message takes the padded header and one padded slot.
pub proof fn lemma_fd_cmsg_len(fd: i32)
    ensures
        fd_cmsg(fd).len() == spec_hdr_size() + spec_fd_slot(),
        fd_cmsg(fd).len() == 24 || fd_cmsg(fd).len() == 16,
{
    lemma_sizes();
}

/// The walk looks only at what lies from `pos` on.
proof fn lemma_cmsg_fds_shift(a: Seq<u8>, b: Seq<u8>, pos: int)
    requires
        0 <= pos,
    ensures
        cmsg_fds(a + b, a.len() + pos) == cmsg_fds(b, pos),
    decreases b.len() - pos,
{
    lemma_sizes();
    if pos + spec_hdr_size() + 4 <= b.len() {
        let len = word_at(b, pos) as int;
        lemma_round_up(len, spec_ptr_size());
        let next = pos + round_up(len, spec_ptr_size());
        if spec_hdr_size() <= len && pos + len <= b.len() && next <= b.len() {
            lemma_cmsg_fds_shift(a, b, next);
        }
    }
}

/// Descriptors framed by the sender come out of the receiver's walk as the
/// same descriptors in the same order.
pub proof fn lemma_fds_round_trip(fds: Seq<i32>)
    ensures
        cmsg_fds(fds_cmsgs(fds), 0) == fds_bytes(fds),
    decreases fds.len(),
{
    lemma_sizes();
    if fds.len() > 0 {
        let h = CmsgHdr::for_fd();
        lemma_fd_cmsg_len(fds[0]);
        lemma_word_round_trip(h.cmsg_len);
        lemma_int_round_trip(h.cmsg_level);
        lemma_int_round_trip(h.cmsg_type);
        lemma_cmsg_fds_shift(fd_cmsg(fds[0]), fds_cmsgs(fds.drop_first()), 0);
        lemma_fds_round_trip(fds.drop_first());
    }
}

/// The `k`-th descriptor of a queue stands at byte `4 * k`, so reading the
/// queue from its head yields the descriptors in the order they arrived.
pub proof fn lemma_fd_order(fds: Seq<i32>, k: int)
    requires
        0 <= k < fds.len(),
    ensures
        fds_bytes(fds).len() == 4 * fds.len(),
        int_at(fds_bytes(fds), 4 * k) == fds[k],
    decreases fds.len(),
{
    lemma_fds_bytes_len(fds);
    lemma_int_round_trip(fds[0]);
    if k > 0 {
        lemma_fd_order(fds.drop_first(), k - 1);
    }
}

/// A queue of descriptors takes four bytes for each.
pub proof fn lemma_fds_bytes_len(fds: Seq<i32>)
    ensures
        fds_bytes(fds).len() == 4 * fds.len(),
    decreases fds.len(),
{
    if fds.len() > 0 {
        lemma_fds_bytes_len(fds.drop_first());
    }
}

/// Size of a header, padded to pointer width.
pub fn hdr_size() -> (r: usize)
    ensures
        r == spec_hdr_size(),
        r == 12 || r == 16,
{
    proof {
        lemma_sizes();
    }
    alignptr(CMSG_FIELDS)
}

/// Bytes that one descriptor takes in a control buffer.
pub fn fd_cmsg_space() -> (r: usize)
    ensures
        r == spec_hdr_size() + spec_fd_slot(),
        r == 16 || r == 24,
{
    proof {
        lemma_sizes();
    }
    alignptr(CMSG_FIELDS) + alignptr(4)
}

/// Appends the control message that carries `fd`.
pub fn write_fd<const N: usize>(buf: &mut Buffer<N>, fd: i32)
    requires
        old(buf)@.len() + spec_hdr_size() + spec_fd_slot() <= N,
    ensures
        final(buf)@ == old(buf)@ + fd_cmsg(fd),
{
    proof {
        lemma_sizes();
    }
    let hdrlen = alignptr(CMSG_FIELDS);
    let payloadlen = alignptr(4);
    let hdr = CmsgHdr {
        cmsg_len: (hdrlen + 4) as u32,
        cmsg_level: SOL_SOCKET,
        cmsg_type: SCM_RIGHTS,
    };
    hdr.write(buf);
    write_int(buf, fd);
    pad(buf, payloadlen - 4);
}

fn pad<const N: usize>(buf: &mut Buffer<N>, n: usize)
    requires
        old(buf)@.len() + n <= N,
    ensures
        final(buf)@ == old(buf)@ + zeros(n as int),
{
    let mut i: usize = 0;
    while i < n
        invariant
            i <= n,
            old(buf)@.len() + n <= N,
            buf@ == old(buf)@ + zeros(i as int),
        decreases n - i,
    {
        buf.push(0u8);
        i += 1;
    }
}

/// Walks the control messages in `control` and collects the payload of each
/// `SCM_RIGHTS` message, in the order they stand.
pub fn collect_fds(control: &[u8]) -> (fds: Vec<u8>)
    ensures
        fds@ == cmsg_fds(control@, 0),
{
    let hdr_size = hdr_size();
    let total = control.len();
    let mut fds: Vec<u8> = Vec::new();
    let mut pos: usize = 0;
    proof {
        lemma_sizes();
    }
    loop
        invariant
            hdr_size == spec_hdr_size(),
            hdr_size == 12 || hdr_size == 16,
            total == control@.len(),
            pos <= total,
            cmsg_fds(control@, 0) == fds@ + cmsg_fds(control@, pos as int),
        decreases total - pos,
    {
        if total - pos < hdr_size + 4 {
            return fds;
        }
        let hdr = CmsgHdr::read(control, pos);
        let len = hdr.cmsg_len as usize;
        if len < hdr_size || len > total - pos {
            return fds;
        }
        let next = if len > total - pos - 8 {
            total
        } else {
            pos + alignptr(len)
        };
        proof {
            lemma_round_up(len as int, spec_ptr_size());
            let nominal = pos + round_up(len as int, spec_ptr_size());
            if next != nominal && nominal <= total {
                assert(cmsg_fds(control@, nominal) =~= Seq::<u8>::empty());
            }
        }
        if hdr.is_rights() {
            fds.extend_from_slice(slice_subrange(control, pos + hdr_size, pos + len));
        }
        pos = next;
    }
}

/// Appends the file descriptors that the control messages in `control`
/// carry to `fds`. Returns whether they fitted; when they did not, `fds` is
/// left as it was.
pub fn process_cmsgs<const N: usize>(control: &[u8], fds: &mut Buffer<N>) -> (fitted: bool)
    ensures
        fitted <==> old(fds)@.len() + cmsg_fds(control@, 0).len() <= N,
        fitted ==> final(fds)@ == old(fds)@ + cmsg_fds(control@, 0),
        !fitted ==> final(fds)@ == old(fds)@,
{
    let carried = collect_fds(control);
    if carried.len() > fds.capacity() - fds.len() {
        return false;
    }
    fds.extend(carried.as_slice());
    true
}

} // verus!
