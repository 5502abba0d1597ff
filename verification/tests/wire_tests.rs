use aml_boot::wire::{
    conv_64u8_as_16u32, from_wire, join_address, make_word, register_from_wire, register_to_wire,
    split_address, to_wire, u8_le_slice_to_u32_vec, vu32_to_vu8, word_byte, words_to_bytes,
    Endianness,
};

#[test]
fn address_splits_into_halves() {
    assert_eq!(split_address(0xfffa_0040), (0xfffa, 0x0040));
    assert_eq!(split_address(0), (0, 0));
    assert_eq!(split_address(0xffff_ffff), (0xffff, 0xffff));
    assert_eq!(split_address(0xd900_d400), (0xd900, 0xd400));
}

#[test]
fn address_halves_join_losslessly() {
    for addr in [0u32, 1, 0xffff, 0x1_0000, 0xc810_00e0, 0xfffa_0000, 0xffff_ffff] {
        let (hi, lo) = split_address(addr);
        assert_eq!(hi as u32, addr >> 16);
        assert_eq!(lo as u32, addr & 0xFFFF);
        assert_eq!(((hi as u32) << 16) | lo as u32, addr);
        assert_eq!(join_address(hi, lo), addr);
    }
}

#[test]
fn word_is_made_least_significant_byte_first() {
    assert_eq!(make_word(0x78, 0x56, 0x34, 0x12), 0x1234_5678);
    assert_eq!(make_word(0xff, 0, 0, 0), 0xff);
    assert_eq!(make_word(0, 0, 0, 0x80), 0x8000_0000);
}

#[test]
fn word_byte_counts_from_the_low_end() {
    let w = 0x1234_5678;
    assert_eq!(word_byte(w, 0), 0x78);
    assert_eq!(word_byte(w, 1), 0x56);
    assert_eq!(word_byte(w, 2), 0x34);
    assert_eq!(word_byte(w, 3), 0x12);
}

#[test]
fn slice_becomes_little_endian_words() {
    let buf = [0x01, 0x02, 0x03, 0x04, 0x05, 0x06, 0x07, 0x08];
    assert_eq!(u8_le_slice_to_u32_vec(&buf), vec![0x0403_0201, 0x0807_0605]);
}

#[test]
fn slice_of_four_bytes_is_one_word() {
    assert_eq!(u8_le_slice_to_u32_vec(&[0xef, 0xbe, 0xad, 0xde]), vec![0xdead_beef]);
}

#[test]
fn empty_slice_has_no_word() {
    assert_eq!(u8_le_slice_to_u32_vec(&[]), Vec::<u32>::new());
}

#[test]
fn last_word_is_filled_with_zero_bytes() {
    assert_eq!(u8_le_slice_to_u32_vec(&[1, 2, 3, 4, 5]), vec![0x0403_0201, 0x0000_0005]);
    assert_eq!(u8_le_slice_to_u32_vec(&[1, 2, 3, 4, 5, 6]), vec![0x0403_0201, 0x0000_0605]);
    assert_eq!(u8_le_slice_to_u32_vec(&[1, 2, 3, 4, 5, 6, 7]), vec![0x0403_0201, 0x0007_0605]);
}

#[test]
fn short_slice_is_one_filled_word() {
    assert_eq!(u8_le_slice_to_u32_vec(&[0xaa]), vec![0x0000_00aa]);
    assert_eq!(u8_le_slice_to_u32_vec(&[0xaa, 0xbb]), vec![0x0000_bbaa]);
    assert_eq!(u8_le_slice_to_u32_vec(&[0xaa, 0xbb, 0xcc]), vec![0x00cc_bbaa]);
}

#[test]
fn words_become_big_endian_bytes() {
    assert_eq!(
        vu32_to_vu8(vec![0x1234_5678, 0x0000_00ff]),
        vec![0x12, 0x34, 0x56, 0x78, 0x00, 0x00, 0x00, 0xff]
    );
    assert_eq!(vu32_to_vu8(vec![]), Vec::<u8>::new());
}

#[test]
fn words_become_bytes_in_either_order() {
    let words = vec![0x1234_5678u32];
    assert_eq!(words_to_bytes(&words, Endianness::Little), vec![0x78, 0x56, 0x34, 0x12]);
    assert_eq!(words_to_bytes(&words, Endianness::Big), vec![0x12, 0x34, 0x56, 0x78]);
}

#[test]
fn block_becomes_sixteen_words() {
    let mut buf = [0u8; 64];
    for (i, b) in buf.iter_mut().enumerate() {
        *b = i as u8;
    }
    let words = conv_64u8_as_16u32(&buf);
    assert_eq!(words.len(), 16);
    assert_eq!(words[0], 0x0302_0100);
    assert_eq!(words[1], 0x0706_0504);
    assert_eq!(words[15], 0x3f3e_3d3c);
    assert_eq!(words, u8_le_slice_to_u32_vec(&buf));
}

#[test]
fn wire_image_in_little_endian_is_the_buffer_filled_up() {
    assert_eq!(to_wire(&[1, 2, 3, 4], Endianness::Little), vec![1, 2, 3, 4]);
    assert_eq!(to_wire(&[1, 2, 3, 4, 5], Endianness::Little).len(), 8);
    assert_eq!(&to_wire(&[1, 2, 3, 4, 5], Endianness::Little)[..5], &[1, 2, 3, 4, 5]);
    assert_eq!(to_wire(&[], Endianness::Little), Vec::<u8>::new());
}

#[test]
fn wire_image_in_big_endian_reverses_each_word() {
    assert_eq!(
        to_wire(&[1, 2, 3, 4, 5, 6, 7, 8], Endianness::Big),
        vec![4, 3, 2, 1, 8, 7, 6, 5]
    );
    let tail = to_wire(&[1, 2, 3, 4, 5], Endianness::Big);
    assert_eq!(tail.len(), 8);
    assert_eq!(&tail[..4], &[4, 3, 2, 1]);
    assert_eq!(tail[7], 5);
}

#[test]
fn host_image_keeps_the_length() {
    assert_eq!(from_wire(&[4, 3, 2, 1, 8, 7, 6, 5], Endianness::Big), vec![1, 2, 3, 4, 5, 6, 7, 8]);
    assert_eq!(from_wire(&[1, 2, 3, 4, 5], Endianness::Little), vec![1, 2, 3, 4, 5]);
    assert_eq!(from_wire(&[1, 2, 3, 4, 5], Endianness::Big).len(), 5);
    assert_eq!(from_wire(&[], Endianness::Big), Vec::<u8>::new());
}

#[test]
fn buffer_survives_the_wire_and_back() {
    for n in 0..=64usize {
        let bytes: Vec<u8> = (0..n).map(|i| (i * 7 + 3) as u8).collect();
        let wire = to_wire(&bytes, Endianness::Little);
        assert_eq!(from_wire(&wire[..n], Endianness::Little), bytes);
        if n % 4 == 0 {
            let wire = to_wire(&bytes, Endianness::Big);
            assert_eq!(from_wire(&wire[..n], Endianness::Big), bytes);
        }
    }
}

#[test]
fn register_value_in_either_order() {
    assert_eq!(register_to_wire(0xbdff_3dff, Endianness::Little), vec![0xff, 0x3d, 0xff, 0xbd]);
    assert_eq!(register_to_wire(0xbdff_3dff, Endianness::Big), vec![0xbd, 0xff, 0x3d, 0xff]);
    assert_eq!(register_from_wire(&[0xff, 0x3d, 0xff, 0xbd], Endianness::Little), 0xbdff_3dff);
    assert_eq!(register_from_wire(&[0xbd, 0xff, 0x3d, 0xff], Endianness::Big), 0xbdff_3dff);
}

#[test]
fn register_survives_the_wire_and_back() {
    for val in [0u32, 1, 0x8000_0000, 0x1234_5678, 0xffff_ffff] {
        for order in [Endianness::Little, Endianness::Big] {
            let wire = register_to_wire(val, order);
            let bytes: [u8; 4] = [wire[0], wire[1], wire[2], wire[3]];
            assert_eq!(register_from_wire(&bytes, order), val);
        }
    }
}
