use packet_inspect::helper::{csum_fold, iph_csum, iph_set_check};

const HEADER: [u8; 20] = [
    0x45, 0x00, 0x00, 0x3c, 0x1c, 0x46, 0x40, 0x00, 0x40, 0x06, 0x00, 0x00, 0xac, 0x10, 0x0a, 0x63,
    0xac, 0x10, 0x0a, 0x0c,
];

fn sum_of_words(bytes: &[u8]) -> u64 {
    bytes.chunks(2).map(|w| u64::from(u16::from_be_bytes([w[0], w[1]]))).sum()
}

#[test]
fn fold_of_nothing_is_all_ones() {
    assert_eq!(csum_fold(0), 0xffff);
}

#[test]
fn fold_of_a_sum_without_carry_is_its_complement() {
    assert_eq!(csum_fold(1), 0xfffe);
    assert_eq!(csum_fold(0x4e19), 0xb1e6);
    assert_eq!(csum_fold(0xffff), 0);
}

#[test]
fn fold_adds_the_carry_back() {
    assert_eq!(csum_fold(0x1_0000), 0xfffe);
    assert_eq!(csum_fold(0x2_4e17), 0xb1e6);
    assert_eq!(csum_fold(0x1_ffff), 0xfffe);
    assert_eq!(csum_fold(0xffff_ffff), 0);
}

#[test]
fn fold_settles_every_64_bit_sum() {
    assert_eq!(csum_fold(u64::MAX), 0);
    assert_eq!(csum_fold(0xffff_ffff_ffff_0000), 0);
    assert_eq!(csum_fold(0x0001_0001_0001_0001), !4u16);
    assert_eq!(csum_fold(0x8000_8000_8000_8000), !2u16);
    assert_eq!(csum_fold(0x1_0000_0000_0000), 0xfffe);
}

#[test]
fn fold_agrees_with_the_remainder_by_ffff() {
    for x in [1u64, 2, 0xfffe, 0xffff, 0x1_0000, 0x1_0001, 0xdead_beef, 0x1234_5678_9abc_def0] {
        let folded = (x - 1) % 0xffff + 1;
        assert_eq!(u64::from(csum_fold(x)), 0xffff - folded);
    }
}

#[test]
fn checksum_of_the_example_header() {
    let mut header = HEADER;
    assert_eq!(iph_csum(&mut header), [0xb1, 0xe6]);
}

#[test]
fn checksum_leaves_its_field_zero() {
    let mut header = HEADER;
    header[10] = 0x12;
    header[11] = 0x34;
    let check = iph_csum(&mut header);
    assert_eq!(check, [0xb1, 0xe6]);
    assert_eq!(header, HEADER);
}

#[test]
fn checksum_round_trip() {
    let mut header = HEADER;
    let check = iph_csum(&mut header);
    iph_set_check(&mut header, check);
    assert_eq!(&header[10..12], &[0xb1, 0xe6]);
    assert_eq!(&header[..10], &HEADER[..10]);
    assert_eq!(&header[12..], &HEADER[12..]);
    assert_eq!(csum_fold(sum_of_words(&header)), 0);
}

#[test]
fn checksum_round_trip_after_a_change() {
    let mut header = HEADER;
    header[8] = 0x3f;
    header[16..20].copy_from_slice(&[10, 0, 0, 1]);
    let check = iph_csum(&mut header);
    iph_set_check(&mut header, check);
    assert_eq!(csum_fold(sum_of_words(&header)), 0);
    assert_ne!(check, [0xb1, 0xe6]);
}

#[test]
fn checksum_of_an_all_zero_header() {
    let mut header = [0u8; 20];
    assert_eq!(iph_csum(&mut header), [0xff, 0xff]);
    iph_set_check(&mut header, [0xff, 0xff]);
    assert_eq!(csum_fold(sum_of_words(&header)), 0);
}

#[test]
fn checksum_of_an_all_ones_header() {
    let mut header = [0xffu8; 20];
    assert_eq!(iph_csum(&mut header), [0x00, 0x00]);
    assert_eq!(&header[10..12], &[0, 0]);
    iph_set_check(&mut header, [0, 0]);
    assert_eq!(csum_fold(sum_of_words(&header)), 0);
}

#[test]
fn set_check_writes_two_bytes() {
    let mut header = [0u8; 20];
    iph_set_check(&mut header, [0xab, 0xcd]);
    let mut expected = [0u8; 20];
    expected[10] = 0xab;
    expected[11] = 0xcd;
    assert_eq!(header, expected);
}
