use railway::types::buffer::{align32, alignptr, ptr_size, Buffer};
use railway::types::{Fixed, MessageHeader};
use railway::wire::{
    array_wire_len, int_to_word, str_eq, string_wire_len, word_from_bytes, word_to_bytes,
    word_to_int, write_array, write_int, write_string, write_uint, Reader, WireError,
};

#[test]
fn align32_rounds_up_to_words() {
    assert_eq!(align32(0), 0);
    assert_eq!(align32(1), 4);
    assert_eq!(align32(4), 4);
    assert_eq!(align32(14), 16);
    assert_eq!(align32(65529), 65532);
    assert_eq!(align32(65532), 65532);
}

#[test]
fn alignptr_rounds_up_to_pointer_width() {
    let p = ptr_size();
    assert_eq!(p, std::mem::size_of::<usize>());
    assert_eq!(alignptr(0), 0);
    assert_eq!(alignptr(1), p);
    assert_eq!(alignptr(p), p);
    assert_eq!(alignptr(12), if p == 8 { 16 } else { 12 });
    assert_eq!(alignptr(4), if p == 8 { 8 } else { 4 });
}

#[test]
fn buffer_push_and_extend() {
    let mut b: Buffer<16> = Buffer::new();
    assert_eq!(b.len(), 0);
    assert_eq!(b.capacity(), 16);
    b.push(7);
    b.extend(&[1, 2, 3]);
    assert_eq!(b.as_slice(), &[7, 1, 2, 3]);
    b.clear();
    assert_eq!(b.len(), 0);
    assert_eq!(b.as_slice(), &[] as &[u8]);
}

#[test]
fn buffer_fills_to_capacity() {
    let mut b: Buffer<4> = Buffer::new();
    b.extend(&[9, 8, 7, 6]);
    assert_eq!(b.len(), b.capacity());
    assert_eq!(b.as_slice(), &[9, 8, 7, 6]);
}

#[test]
fn buffer_set_len_exposes_storage() {
    let mut b: Buffer<8> = Buffer::new();
    b.extend(&[1, 2, 3, 4]);
    b.clear();
    b.set_len(3);
    assert_eq!(b.as_slice(), &[1, 2, 3]);
    b.set_len(6);
    assert_eq!(b.len(), 6);
    assert_eq!(b.as_slice(), &[1, 2, 3, 4, 0, 0]);
    b.set_len(0);
    assert_eq!(b.len(), 0);
    b.set_len(8);
    assert_eq!(b.len(), b.capacity());
}

#[test]
fn buffer_storage_is_written_in_place() {
    let mut b: Buffer<8> = Buffer::new();
    b.extend(&[1, 2, 3, 4]);
    {
        let s = b.as_storage();
        assert_eq!(s.len(), 8);
        s[1] = 20;
        s[5] = 60;
    }
    assert_eq!(b.len(), 4);
    assert_eq!(b.as_slice(), &[1, 20, 3, 4]);
    b.set_len(6);
    assert_eq!(b.as_slice(), &[1, 20, 3, 4, 0, 60]);
}

#[test]
fn words_are_little_endian() {
    assert_eq!(word_to_bytes(0x0102_0304), [4, 3, 2, 1]);
    assert_eq!(word_to_bytes(12), [12, 0, 0, 0]);
    assert_eq!(word_from_bytes(4, 3, 2, 1), 0x0102_0304);
    assert_eq!(word_from_bytes(0x2a, 0, 0, 0), 42);
}

#[test]
fn word_round_trip() {
    for v in [0u32, 1, 0xff, 0x100, 0xdead_beef, u32::MAX] {
        let b = word_to_bytes(v);
        assert_eq!(word_from_bytes(b[0], b[1], b[2], b[3]), v);
    }
}

#[test]
fn int_keeps_its_bits() {
    assert_eq!(int_to_word(-1), u32::MAX);
    assert_eq!(int_to_word(i32::MIN), 0x8000_0000);
    assert_eq!(word_to_int(0xffff_fffe), -2);
    for v in [0i32, 1, -1, 1920, i32::MAX, i32::MIN] {
        assert_eq!(word_to_int(int_to_word(v)), v);
    }
}

#[test]
fn uint_written_and_read_back() {
    let mut b: Buffer<64> = Buffer::new();
    write_uint(&mut b, 0xdead_beef);
    write_uint(&mut b, 7);
    assert_eq!(b.as_slice(), &[0xef, 0xbe, 0xad, 0xde, 7, 0, 0, 0]);
    let mut r = Reader::new(b.as_slice(), 0, b.len(), &[], 0);
    assert_eq!(r.get_uint(), Ok(0xdead_beef));
    assert_eq!(r.get_uint(), Ok(7));
    assert_eq!(r.position(), 8);
    assert_eq!(r.get_uint(), Err(WireError::Overrun));
    assert_eq!(r.position(), 8);
}

#[test]
fn int_written_and_read_back() {
    let mut b: Buffer<64> = Buffer::new();
    write_int(&mut b, -2);
    write_int(&mut b, 1080);
    assert_eq!(b.as_slice(), &[0xfe, 0xff, 0xff, 0xff, 0x38, 0x04, 0, 0]);
    let mut r = Reader::new(b.as_slice(), 0, b.len(), &[], 0);
    assert_eq!(r.get_int(), Ok(-2));
    assert_eq!(r.get_int(), Ok(1080));
    assert_eq!(r.get_int(), Err(WireError::Overrun));
}

#[test]
fn fixed_travels_as_a_word() {
    let f = Fixed::new(0x0000_0180);
    assert_eq!(f.0, 0x180);
    let mut b: Buffer<16> = Buffer::new();
    write_uint(&mut b, f.0);
    let mut r = Reader::new(b.as_slice(), 0, b.len(), &[], 0);
    assert_eq!(Fixed::new(r.get_uint().unwrap()).0, f.0);
}

#[test]
fn string_is_prefixed_terminated_and_padded() {
    let mut b: Buffer<64> = Buffer::new();
    write_string(&mut b, "wl_compositor");
    let mut expected = vec![14u8, 0, 0, 0];
    expected.extend_from_slice(b"wl_compositor\0\0\0");
    assert_eq!(b.as_slice(), &expected[..]);
    assert_eq!(b.len(), 4 + 16);
    assert_eq!(string_wire_len("wl_compositor"), Some(20));
}

#[test]
fn string_lengths_are_whole_words() {
    assert_eq!(string_wire_len(""), Some(8));
    assert_eq!(string_wire_len("abc"), Some(8));
    assert_eq!(string_wire_len("abcd"), Some(12));
    assert_eq!(string_wire_len("abcdefg"), Some(12));
    let mut b: Buffer<64> = Buffer::new();
    write_string(&mut b, "abcd");
    assert_eq!(b.as_slice(), &[5, 0, 0, 0, b'a', b'b', b'c', b'd', 0, 0, 0, 0]);
    let mut e: Buffer<64> = Buffer::new();
    write_string(&mut e, "");
    assert_eq!(e.as_slice(), &[1, 0, 0, 0, 0, 0, 0, 0]);
}

#[test]
fn string_too_long_for_a_message_has_no_length() {
    let s = "x".repeat(65527);
    assert_eq!(string_wire_len(&s), Some(65532));
    let t = "x".repeat(65528);
    assert_eq!(string_wire_len(&t), None);
}

#[test]
fn string_round_trip() {
    for s in ["", "a", "wl_shm", "xdg_wm_base", "grüße", "日本語", "a\0b"] {
        let mut b: Buffer<64> = Buffer::new();
        write_string(&mut b, s);
        assert_eq!(b.len() % 4, 0);
        assert_eq!(b.as_slice()[b.len() - 1], 0);
        let mut r = Reader::new(b.as_slice(), 0, b.len(), &[], 0);
        assert_eq!(r.get_str(), Ok(s.to_string()));
        assert_eq!(r.position(), b.len());
    }
}

#[test]
fn string_of_length_zero_is_empty() {
    let bytes = [0u8, 0, 0, 0, 9, 0, 0, 0];
    let mut r = Reader::new(&bytes, 0, 8, &[], 0);
    assert_eq!(r.get_str(), Ok(String::new()));
    assert_eq!(r.position(), 4);
    assert_eq!(r.get_uint(), Ok(9));
}

#[test]
fn string_with_bad_utf8_is_refused() {
    let bytes = [3u8, 0, 0, 0, 0xff, 0xfe, 0, 0];
    let mut r = Reader::new(&bytes, 0, 8, &[], 0);
    assert_eq!(r.get_str(), Err(WireError::InvalidUtf8));
    assert_eq!(r.position(), 0);
    let cut = [3u8, 0, 0, 0, 0xe6, 0x97, 0, 0];
    let mut r = Reader::new(&cut, 0, 8, &[], 0);
    assert_eq!(r.get_str(), Err(WireError::InvalidUtf8));
}

#[test]
fn string_longer_than_the_message_is_refused() {
    let bytes = [9u8, 0, 0, 0, b'a', b'b', b'c', 0];
    let mut r = Reader::new(&bytes, 0, 8, &[], 0);
    assert_eq!(r.get_str(), Err(WireError::Overrun));
    let padded = [5u8, 0, 0, 0, b'a', b'b', b'c', b'd', 0, 0];
    let mut r = Reader::new(&padded, 0, 10, &[], 0);
    assert_eq!(r.get_str(), Err(WireError::Overrun));
}

#[test]
fn array_is_prefixed_and_padded() {
    let mut b: Buffer<64> = Buffer::new();
    write_array(&mut b, &[1, 2, 3, 4, 5]);
    assert_eq!(b.as_slice(), &[5, 0, 0, 0, 1, 2, 3, 4, 5, 0, 0, 0]);
    assert_eq!(array_wire_len(&[1, 2, 3, 4, 5]), Some(12));
    assert_eq!(array_wire_len(&[]), Some(4));
    assert_eq!(array_wire_len(&[0; 8]), Some(12));
    assert_eq!(array_wire_len(&vec![0u8; 65528]), Some(65532));
    assert_eq!(array_wire_len(&vec![0u8; 65529]), None);
}

#[test]
fn array_round_trip() {
    for a in [vec![], vec![7u8], vec![1, 2, 3, 4], vec![0xff; 9]] {
        let mut b: Buffer<64> = Buffer::new();
        write_array(&mut b, &a);
        assert_eq!(b.len() % 4, 0);
        let mut r = Reader::new(b.as_slice(), 0, b.len(), &[], 0);
        assert_eq!(r.get_vec(), Ok(a.clone()));
        assert_eq!(r.position(), b.len());
    }
}

#[test]
fn array_longer_than_the_message_is_refused() {
    let bytes = [8u8, 0, 0, 0, 1, 2, 3, 4];
    let mut r = Reader::new(&bytes, 0, 8, &[], 0);
    assert_eq!(r.get_vec(), Err(WireError::Overrun));
    assert_eq!(r.position(), 0);
}

#[test]
fn reader_stops_at_the_end_of_the_message() {
    let bytes = [1u8, 0, 0, 0, 2, 0, 0, 0, 3, 0, 0, 0];
    let mut r = Reader::new(&bytes, 4, 8, &[], 0);
    assert_eq!(r.get_uint(), Ok(2));
    assert_eq!(r.get_uint(), Err(WireError::Overrun));
}

#[test]
fn fds_come_from_the_queue_in_order() {
    let queue = [5u8, 0, 0, 0, 9, 0, 0, 0, 0xff, 0xff, 0xff, 0xff];
    let mut r = Reader::new(&[], 0, 0, &queue, 0);
    assert_eq!(r.get_fd(), Ok(5));
    assert_eq!(r.fd_position(), 4);
    assert_eq!(r.get_fd(), Ok(9));
    assert_eq!(r.get_fd(), Ok(-1));
    assert_eq!(r.get_fd(), Err(WireError::NoFd));
    assert_eq!(r.fd_position(), 12);
    assert_eq!(r.position(), 0);
}

#[test]
fn str_eq_compares_text() {
    assert!(str_eq("wl_shm", "wl_shm"));
    assert!(!str_eq("wl_shm", "wl_shm_pool"));
    assert!(!str_eq("wl_shm", "wl_shn"));
    assert!(str_eq("", ""));
}

#[test]
fn header_packs_opcode_and_length() {
    assert_eq!(MessageHeader::opcode_len(0, 12), 0x000c_0000);
    assert_eq!(MessageHeader::opcode_len(3, 40), 0x0028_0003);
    assert_eq!(MessageHeader::MAX_MSG_SIZE, 65532);
    let h = MessageHeader::from_words(7, 0x000c_0000);
    assert_eq!((h.obj_id, h.opcode, h.len), (7, 0, 12));
    let h = MessageHeader { obj_id: 1, opcode: 0, len: 12 };
    assert_eq!(h.into_bytes(), [1, 0, 0, 0, 0, 0, 12, 0]);
    let h = MessageHeader { obj_id: 0x0102_0304, opcode: 0x0506, len: 0x0708 };
    assert_eq!(h.into_bytes(), [4, 3, 2, 1, 6, 5, 8, 7]);
}

#[test]
fn header_round_trip() {
    for (id, op, len) in [(1u32, 0u16, 8u16), (7, 3, 12), (u32::MAX, u16::MAX, 65532)] {
        let b = MessageHeader { obj_id: id, opcode: op, len }.into_bytes();
        let w1 = word_from_bytes(b[0], b[1], b[2], b[3]);
        let w2 = word_from_bytes(b[4], b[5], b[6], b[7]);
        let h = MessageHeader::from_words(w1, w2);
        assert_eq!((h.obj_id, h.opcode, h.len), (id, op, len));
    }
}
