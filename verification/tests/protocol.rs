use uartflash::checksum::checksum;
use uartflash::{
    build_erase, build_read_chunk, build_write_chunk, interpret_ack, interpret_read_block, verify,
};

/// Independent recomputation of the trailing checksum: the wrapping 8-bit sum
/// of every byte but the last.
fn expected_checksum(frame: &[u8]) -> u8 {
    let mut sum: u8 = 0;
    for b in &frame[..frame.len() - 1] {
        sum = sum.wrapping_add(*b);
    }
    sum
}

#[test]
fn checksum_then_verify_accepts() {
    let mut frame = vec![0x01, 0x02, 0x03, 0x00];
    checksum(&mut frame);
    assert_eq!(frame[3], 0x06);
    assert!(verify(&frame));
}

#[test]
fn checksum_wraps_past_255() {
    let mut frame = vec![0xFF, 0xFF, 0x00];
    checksum(&mut frame);
    assert_eq!(frame[2], 0xFE);
    assert!(verify(&frame));
}

#[test]
fn checksum_of_single_byte_frame_is_zero() {
    let mut frame = vec![0x55];
    checksum(&mut frame);
    assert_eq!(frame, vec![0x00]);
    assert!(verify(&frame));
    assert!(!verify(&[0x05]));
}

#[test]
fn corrupted_checksum_is_rejected() {
    let mut frame = vec![0x10, 0x20, 0x30, 0x00];
    checksum(&mut frame);
    assert!(verify(&frame));
    let last = frame.len() - 1;
    frame[last] = frame[last].wrapping_add(1);
    assert!(!verify(&frame));
}

#[test]
fn erase_frame_is_the_fixed_five_bytes() {
    let frame = build_erase();
    assert_eq!(frame, vec![0x39, 0x00, 0x00, 0x55, 0x8E]);
    assert!(verify(&frame));
}

#[test]
fn write_chunk_at_offset_zero_of_zero_firmware() {
    let firmware = [0u8; 200];
    let frame = build_write_chunk(0, &firmware);
    assert_eq!(frame.len(), 132);
    assert_eq!(frame[0], 0x57);
    assert_eq!(frame[1], 0x00);
    assert_eq!(frame[2], 0x00);
    assert!(frame[3..131].iter().all(|b| *b == 0));
    assert_eq!(frame[131], expected_checksum(&frame));
    assert_eq!(frame[131], 0x57);
    assert!(verify(&frame));
}

#[test]
fn write_chunk_near_end_of_firmware_is_zero_padded() {
    let mut firmware = [0u8; 200];
    for (i, b) in firmware.iter_mut().enumerate() {
        *b = i as u8;
    }
    let frame = build_write_chunk(192, &firmware);
    assert_eq!(frame.len(), 132);
    assert_eq!(frame[0], 0x57);
    assert_eq!(frame[1], 0x00);
    assert_eq!(frame[2], 0xC0);
    // chunk_length = 200 - 192 = 8 real bytes, then padding
    assert_eq!(&frame[3..11], &[192, 193, 194, 195, 196, 197, 198, 199]);
    assert!(frame[11..131].iter().all(|b| *b == 0));
    assert_eq!(frame[131], expected_checksum(&frame));
    assert!(verify(&frame));
}

#[test]
fn write_chunk_round_trips_byte_for_byte() {
    let firmware: Vec<u8> = (0..=255u16).map(|i| (i as u8).wrapping_mul(3)).map(|b| b ^ 0xA5).collect();
    let frame = build_write_chunk(0x0040, &firmware);

    let mut expected = vec![0u8; 132];
    expected[0] = 0x57;
    expected[1] = 0x00;
    expected[2] = 0x40;
    expected[3..131].copy_from_slice(&firmware[0x40..0x40 + 128]);
    expected[131] = expected_checksum(&expected);

    assert_eq!(frame, expected);
}

#[test]
fn read_chunk_frame_for_offset_0x0100() {
    let frame = build_read_chunk(0x0100);
    assert_eq!(frame, vec![0x52, 0x01, 0x00, 0x53]);
    assert_eq!(frame[3], expected_checksum(&frame));
}

#[test]
fn ack_byte_means_success_and_nothing_else_does() {
    assert!(interpret_ack(0x06));
    assert!(!interpret_ack(0x00));
    assert!(!interpret_ack(0x07));
    assert!(!interpret_ack(0xFF));
}

#[test]
fn end_of_data_sentinel_yields_no_data_even_with_valid_checksum() {
    let mut block = vec![0u8; 132];
    block[1] = 0xFF;
    block[131] = expected_checksum(&block);
    assert!(verify(&block));
    assert_eq!(interpret_read_block(&block), None);
}

#[test]
fn end_of_data_sentinel_yields_no_data_with_broken_checksum() {
    let mut block = vec![0u8; 132];
    block[1] = 0xFF;
    block[131] = expected_checksum(&block).wrapping_add(1);
    assert!(!verify(&block));
    assert_eq!(interpret_read_block(&block), None);
}

#[test]
fn checksum_mismatch_yields_no_data() {
    let mut block = vec![0u8; 132];
    block[0] = 0x52;
    block[1] = 0x01;
    for i in 3..131 {
        block[i] = i as u8;
    }
    block[131] = expected_checksum(&block).wrapping_add(1);
    assert_eq!(interpret_read_block(&block), None);
}

#[test]
fn valid_data_block_yields_its_payload() {
    let mut block = vec![0u8; 132];
    block[0] = 0x52;
    block[1] = 0x01;
    for i in 3..131 {
        block[i] = (i as u8).wrapping_mul(7);
    }
    block[131] = expected_checksum(&block);
    let payload = interpret_read_block(&block).expect("block carries data");
    assert_eq!(payload.len(), 128);
    assert_eq!(payload, block[3..131].to_vec());
}
