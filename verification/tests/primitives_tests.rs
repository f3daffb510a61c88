use rv_decode::decode::DecodeUtil;

#[test]
fn slice_picks_contiguous_bits() {
    // Bits [2, 5] inclusive of 0b...01_0110_01, right-aligned.
    let bit: u32 = 0b0101_0101_1001;
    assert_eq!(bit.slice(5, 2), 0b0110);
    assert_eq!(bit.slice(6, 2), 0b1_0110);
    let half: u16 = 0b0101_0101_1001;
    assert_eq!(half.slice(5, 2), 0b0110);
    assert_eq!(half.slice(6, 2), 0b1_0110);
}

#[test]
fn slice_full_width_is_identity() {
    assert_eq!(0xDEAD_BEEFu32.slice(31, 0), 0xDEAD_BEEF);
    assert_eq!(0xBEEFu16.slice(15, 0), 0xBEEF);
}

#[test]
fn slice_keeps_no_bits_above_its_width() {
    // end - start == 3: the result fits in four bits whatever the input.
    assert_eq!(0xFFFF_FFFFu32.slice(11, 8), 0xF);
    assert_eq!(0xFFFFu16.slice(9, 6), 0xF);
    assert_eq!(0xFFFF_FFFFu32.slice(31, 31), 1);
}

#[test]
fn gather_permutes_listed_bits() {
    let bit: u32 = 0b1010_1101;
    assert_eq!(bit.gather(&[7, 5, 3, 2, 0, 6, 4, 1]), 0b1111_1000);
}

#[test]
fn gather_of_every_bit_in_order_is_identity() {
    let mask32: [u32; 32] = [
        31, 30, 29, 28, 27, 26, 25, 24, 23, 22, 21, 20, 19, 18, 17, 16, 15, 14, 13, 12, 11, 10, 9,
        8, 7, 6, 5, 4, 3, 2, 1, 0,
    ];
    assert_eq!(0xDEAD_BEEFu32.gather(&mask32), 0xDEAD_BEEF);
    assert_eq!(0u32.gather(&mask32), 0);
    assert_eq!(0xFFFF_FFFFu32.gather(&mask32), 0xFFFF_FFFF);
    let mask16: [u32; 16] = [15, 14, 13, 12, 11, 10, 9, 8, 7, 6, 5, 4, 3, 2, 1, 0];
    assert_eq!(0xABCDu16.gather(&mask16), 0xABCD);
}

#[test]
fn gather_of_no_positions_is_zero() {
    let empty: [u32; 0] = [];
    assert_eq!(0xFFFF_FFFFu32.gather(&empty), 0);
}

#[test]
fn sign_extend_negative_value() {
    // Low three bits 0b101 read as a 3-bit signed quantity: 5 - 8.
    assert_eq!(0u32.to_signed_nbit(0b101, 3), -3);
    assert_eq!(0u16.to_signed_nbit(0b101, 3), -3);
}

#[test]
fn sign_extend_positive_value_unchanged() {
    assert_eq!(0u32.to_signed_nbit(5, 4), 5);
    assert_eq!(0u32.to_signed_nbit(0x7FF, 12), 0x7FF);
}

#[test]
fn sign_extend_masks_before_testing_sign() {
    // Bits above the width are discarded: only the low four bits remain.
    assert_eq!(0u32.to_signed_nbit(0xF5, 4), 5);
    assert_eq!(0u32.to_signed_nbit(0xFD, 4), -3);
}

#[test]
fn sign_extend_width_one() {
    assert_eq!(0u32.to_signed_nbit(1, 1), -1);
    assert_eq!(0u32.to_signed_nbit(0, 1), 0);
}

#[test]
fn sign_extend_full_width() {
    assert_eq!(0u32.to_signed_nbit(-5, 32), -5);
    assert_eq!(0u32.to_signed_nbit(7, 32), 7);
}

#[test]
fn sign_extend_is_idempotent_on_samples() {
    let widths: [u32; 4] = [1, 6, 13, 32];
    let samples: [i32; 5] = [0, 1, -1, 0x7535, -77];
    for w in widths {
        for s in samples {
            let once: i32 = 0u32.to_signed_nbit(s, w);
            assert_eq!(0u32.to_signed_nbit(once, w), once);
        }
    }
}
