use kwp_me7::bcb::{
    create_bcb_data, encrypt_and_compress, encrypt_data, expand_bcb_data, next_bcb_block,
    RepeatMode,
};
use kwp_me7::KEY;

fn scrambled(len: usize) -> Vec<u8> {
    // bytes with runs of many lengths among bytes that do not repeat
    let mut data = Vec::new();
    let mut state: u32 = 12345;
    while data.len() < len {
        state = state.wrapping_mul(1103515245).wrapping_add(12345);
        let byte = (state >> 16) as u8;
        let run = if (state >> 8) % 4 == 0 { 1 + ((state >> 24) % 9) as usize } else { 1 };
        for _ in 0..run {
            data.push(byte);
        }
    }
    data.truncate(len);
    data
}

#[test]
fn key_is_geheim() {
    assert_eq!(&KEY, b"GEHEIM");
}

#[test]
fn repeat_mode_bits() {
    assert_eq!(RepeatMode::NoRepeats.bits(), 0);
    assert_eq!(RepeatMode::Repeating.bits(), 1);
    assert_eq!(RepeatMode::RepeatingAlso.bits(), 2);
    assert_eq!(RepeatMode::Unknown.bits(), 3);
}

#[test]
fn six_hundred_equal_bytes_are_one_block() {
    let data = vec![0xAA; 600];
    let (consumed, compressed) = create_bcb_data(&data, 128);
    assert_eq!(consumed, 600);
    assert_eq!(compressed, vec![0x42, 0x58, 0xAA]);
    assert_eq!(expand_bcb_data(&compressed), Some(data));
    let mut block = compressed;
    let mut key_index = 0;
    encrypt_data(&KEY, &mut block, &mut key_index);
    assert_eq!(block, vec![0x42 ^ b'G', 0x58 ^ b'E', 0xAA ^ b'H']);
    assert_eq!(block, vec![0x05, 0x1D, 0xE2]);
    assert_eq!(key_index, 3);
}

#[test]
fn first_block_of_a_download() {
    let data = vec![0xAA; 600];
    let mut key_index = 0;
    let (consumed, block) = encrypt_and_compress(128, &data, &mut key_index, &KEY, true);
    assert_eq!(consumed, 600);
    assert_eq!(block, vec![0x1A ^ b'G', 0x01 ^ b'E', 0x42 ^ b'H', 0x58 ^ b'E', 0xAA ^ b'I']);
    assert_eq!(key_index, 5);
    // a later block has no prefix and goes on in the key
    let (consumed, block) = encrypt_and_compress(128, &data, &mut key_index, &KEY, false);
    assert_eq!(consumed, 600);
    assert_eq!(block, vec![0x42 ^ b'M', 0x58 ^ b'G', 0xAA ^ b'E']);
    assert_eq!(key_index, 2);
}

#[test]
fn first_block_leaves_room_for_its_prefix() {
    let data: Vec<u8> = (0..100).collect();
    let mut key_index = 0;
    let (consumed, block) = encrypt_and_compress(20, &data, &mut key_index, &KEY, true);
    // 2 of prefix, 2 of header, 16 of data
    assert_eq!(consumed, 16);
    assert_eq!(block.len(), 20);
    let mut key_index = 0;
    let (consumed, block) = encrypt_and_compress(20, &data, &mut key_index, &KEY, false);
    assert_eq!(consumed, 18);
    assert_eq!(block.len(), 20);
    // too little room for any data: the prefix alone
    let mut key_index = 4;
    let (consumed, block) = encrypt_and_compress(6, &data, &mut key_index, &KEY, true);
    assert_eq!(consumed, 0);
    assert_eq!(block, vec![0x1A ^ b'I', 0x01 ^ b'M']);
    assert_eq!(key_index, 0);
}

#[test]
fn runs_at_the_head() {
    assert_eq!(create_bcb_data(&[9; 4], 128), (4, vec![0x40, 0x04, 9]));
    // an odd run gives up its last byte, so that the block ends at an odd index
    assert_eq!(create_bcb_data(&[9; 5], 128), (4, vec![0x40, 0x04, 9]));
    assert_eq!(create_bcb_data(&[9; 6], 128), (6, vec![0x40, 0x06, 9]));
    assert_eq!(create_bcb_data(&[9; 7], 128), (6, vec![0x40, 0x06, 9]));
    // three equal bytes are no run
    assert_eq!(create_bcb_data(&[9; 3], 128), (2, vec![0x00, 0x02, 9, 9]));
    // a block stands for 0x1000 bytes at most
    assert_eq!(create_bcb_data(&vec![5; 0x1001], 128), (0x1000, vec![0x50, 0x00, 5]));
    assert_eq!(create_bcb_data(&vec![5; 0x2000], 128), (0x2000, vec![0x50, 0x00, 5, 0x50, 0x00, 5]));
}

#[test]
fn bytes_before_a_run_are_a_block_of_their_own() {
    let data = [1, 2, 2, 2, 2, 2, 3, 4];
    let (consumed, compressed) = create_bcb_data(&data, 128);
    assert_eq!(consumed, 8);
    assert_eq!(compressed, vec![0x00, 0x01, 1, 0x40, 0x05, 2, 0x00, 0x02, 3, 4]);
    assert_eq!(expand_bcb_data(&compressed), Some(data.to_vec()));
}

#[test]
fn block_without_repeats_has_an_even_length() {
    let (consumed, compressed) = create_bcb_data(&[1, 2, 3, 4, 5, 6, 7], 128);
    assert_eq!(consumed, 6);
    assert_eq!(compressed, vec![0x00, 0x06, 1, 2, 3, 4, 5, 6]);
    // a single byte that is left cannot be packed
    assert_eq!(create_bcb_data(&[7], 128), (0, vec![]));
    assert_eq!(create_bcb_data(&[], 128), (0, vec![]));
}

#[test]
fn compression_stops_when_the_room_is_used() {
    let data: Vec<u8> = (0..20).collect();
    let (consumed, compressed) = create_bcb_data(&data, 10);
    assert_eq!(consumed, 8);
    assert_eq!(compressed, vec![0x00, 0x08, 0, 1, 2, 3, 4, 5, 6, 7]);
    let (consumed, compressed) = create_bcb_data(&[1, 1, 1, 1, 2, 2, 2, 2, 3, 3, 3, 3], 8);
    assert_eq!(consumed, 8);
    assert_eq!(compressed, vec![0x40, 0x04, 1, 0x40, 0x04, 2]);
    // no block starts with four bytes of room or less
    assert_eq!(create_bcb_data(&data, 4), (0, vec![]));
    assert_eq!(create_bcb_data(&data, 0), (0, vec![]));
    assert_eq!(create_bcb_data(&data, 5), (2, vec![0x00, 0x02, 0, 1]));
}

#[test]
fn next_block_leaves_the_index_alone() {
    let data = [1, 2, 3, 3, 3, 3, 3, 3, 4, 5];
    let mut index = 2;
    let mut out = vec![0xEE];
    let consumed = next_bcb_block(100, &mut index, &data, &mut out);
    assert_eq!(consumed, 6);
    assert_eq!(index, 2);
    assert_eq!(out, vec![0xEE, 0x40, 0x06, 3]);
    // at an odd index a run has to reach the next odd index but one
    let mut index = 3;
    let mut out = Vec::new();
    let consumed = next_bcb_block(100, &mut index, &data, &mut out);
    assert_eq!(consumed, 5);
    assert_eq!(out, vec![0x40, 0x05, 3]);
    // no room but for the header
    let mut index = 0;
    let mut out = Vec::new();
    assert_eq!(next_bcb_block(2, &mut index, &data, &mut out), 0);
    assert_eq!(next_bcb_block(3, &mut index, &data, &mut out), 0);
    assert_eq!(out, Vec::<u8>::new());
    assert_eq!(next_bcb_block(4, &mut index, &data, &mut out), 2);
    assert_eq!(out, vec![0x00, 0x02, 1, 2]);
    // at the end of the data
    let mut index = 10;
    let mut out = Vec::new();
    assert_eq!(next_bcb_block(100, &mut index, &data, &mut out), 0);
}

#[test]
fn expansion_inverts_compression() {
    for len in [0usize, 1, 2, 3, 7, 8, 64, 255, 256, 1000, 5000] {
        let data = scrambled(len);
        for max in [0usize, 4, 5, 6, 7, 8, 16, 100, 128, 254, 255, 4096, 0x4001] {
            let (consumed, compressed) = create_bcb_data(&data, max);
            assert!(consumed <= data.len());
            assert!(compressed.len() <= max);
            assert_eq!(expand_bcb_data(&compressed), Some(data[..consumed].to_vec()));
        }
    }
}

#[test]
fn a_whole_buffer_goes_through_in_blocks() {
    let data = scrambled(4001);
    let mut sent = 0;
    let mut restored = Vec::new();
    let mut key_index = 0;
    let mut read_index = 0;
    let mut first = true;
    loop {
        let (consumed, mut block) =
            encrypt_and_compress(128, &data[sent..], &mut key_index, &KEY, first);
        assert!(block.len() <= 128);
        encrypt_data(&KEY, &mut block, &mut read_index);
        assert_eq!(read_index, key_index);
        let packed = if first {
            assert_eq!(&block[..2], &[0x1A, 0x01]);
            &block[2..]
        } else {
            &block[..]
        };
        restored.extend(expand_bcb_data(packed).unwrap());
        first = false;
        if consumed == 0 {
            break;
        }
        sent += consumed;
    }
    assert!(data.len() - sent <= 1);
    assert_eq!(restored, data[..sent].to_vec());
}

#[test]
fn expansion_refuses_what_is_no_block() {
    assert_eq!(expand_bcb_data(&[]), Some(vec![]));
    assert_eq!(expand_bcb_data(&[0x00]), None);
    assert_eq!(expand_bcb_data(&[0x00, 0x02, 1]), None);
    assert_eq!(expand_bcb_data(&[0x40, 0x04]), None);
    assert_eq!(expand_bcb_data(&[0xC0, 0x01, 1]), None);
    assert_eq!(expand_bcb_data(&[0x00, 0x00]), Some(vec![]));
    assert_eq!(expand_bcb_data(&[0x80, 0x03, 7]), Some(vec![7, 7, 7]));
    assert_eq!(expand_bcb_data(&[0x40, 0x02, 7, 0x00, 0x01, 9]), Some(vec![7, 7, 9]));
}

#[test]
fn encryption_is_its_own_inverse() {
    let data = scrambled(100);
    for start in 0..6 {
        let mut bytes = data.clone();
        let mut key_index = start;
        encrypt_data(&KEY, &mut bytes, &mut key_index);
        assert_ne!(bytes, data);
        assert_eq!(key_index, (start + 100) % 6);
        let mut key_index = start;
        encrypt_data(&KEY, &mut bytes, &mut key_index);
        assert_eq!(bytes, data);
    }
}

#[test]
fn key_index_goes_round_the_key() {
    let mut bytes = vec![0u8; 6];
    let mut key_index = 0;
    encrypt_data(&KEY, &mut bytes, &mut key_index);
    assert_eq!(bytes, b"GEHEIM".to_vec());
    assert_eq!(key_index, 0);
    let mut bytes = vec![0u8; 4];
    let mut key_index = 4;
    encrypt_data(&KEY, &mut bytes, &mut key_index);
    assert_eq!(bytes, b"IMGE".to_vec());
    assert_eq!(key_index, 2);
    let mut none: Vec<u8> = Vec::new();
    encrypt_data(&[1], &mut none, &mut key_index_zero());
}

fn key_index_zero() -> usize {
    0
}
