use pathland::dither::bayer;
use pathland::dither::bayer_bias;
use pathland::dither::bit_interleave;
use pathland::dither::BAYER_SCALE;
use pathland::dither::DITHER_SIZE;

#[test]
fn interleave_reverses_and_alternates() {
    assert_eq!(bit_interleave(0, 0), 0);
    assert_eq!(bit_interleave(1, 0), 0x8000);
    assert_eq!(bit_interleave(0, 1), 0x4000);
    assert_eq!(bit_interleave(0x80, 0), 0x0002);
    assert_eq!(bit_interleave(0, 0x80), 0x0001);
    assert_eq!(bit_interleave(0xff, 0), 0xaaaa);
    assert_eq!(bit_interleave(0, 0xff), 0x5555);
    assert_eq!(bit_interleave(0xff, 0xff), 0xffff);
    assert_eq!(bit_interleave(0b0000_1001, 0b0000_0011), 0b1101_0010_0000_0000);
}

#[test]
fn interleave_places_every_bit() {
    for i in 0..8u32 {
        assert_eq!(bit_interleave(1 << i, 0), 1 << (15 - 2 * i));
        assert_eq!(bit_interleave(0, 1 << i), 1 << (14 - 2 * i));
    }
}

#[test]
fn interleave_is_a_bijection() {
    let mut seen: Vec<bool> = vec![false; 65536];
    for x in 0..=255u8 {
        for y in 0..=255u8 {
            let v: usize = bit_interleave(x, y) as usize;
            assert!(!seen[v]);
            seen[v] = true;
        }
    }
    assert!(seen.iter().all(|s| *s));
}

#[test]
fn interleave_is_distinct_along_a_row_and_a_column() {
    for fixed in [0u8, 1, 77, 128, 255] {
        let mut row: Vec<u16> = (0..=255u8).map(|y| bit_interleave(fixed, y)).collect();
        row.sort();
        row.dedup();
        assert_eq!(row.len(), 256);
        let mut column: Vec<u16> = (0..=255u8).map(|x| bit_interleave(x, fixed)).collect();
        column.sort();
        column.dedup();
        assert_eq!(column.len(), 256);
    }
}

#[test]
fn bayer_exact_numerators() {
    assert_eq!(BAYER_SCALE, 255 * 255);
    assert_eq!(bayer(0, 0), 1);
    assert_eq!(bayer(1, 0), 49153);
    assert_eq!(bayer(0, 1), 32769);
    assert_eq!(bayer(1, 1), 16385);
    assert_eq!(bayer(2, 0), 12289);
    assert_eq!(bayer(3, 5), 30721);
    assert_eq!(bayer(128, 0), 4);
    assert_eq!(bayer(0, 128), 3);
    assert_eq!(bayer(254, 254), 5462);
    assert_eq!(bayer(255, 0), 65536);
}

#[test]
fn bayer_is_positive_and_overshoots_only_where_expected() {
    let mut over: u32 = 0;
    for x in 0..=255u8 {
        for y in 0..=255u8 {
            let n: u32 = bayer(x, y);
            assert!(1 <= n && n <= 65536);
            let expected = x & 7 == 7 && (x ^ y) & 15 == 15 && (x > 7 || y > 15);
            assert_eq!(n > BAYER_SCALE, expected);
            if n > BAYER_SCALE && x < 255 && y < 255 {
                over += 1;
            }
        }
    }
    assert_eq!(over, 495);
    assert_eq!(bayer(15, 0), 65281);
    assert_eq!(bayer(7, 8), 65025);
}

#[test]
fn bayer_thresholds_are_all_distinct() {
    let mut seen: Vec<bool> = vec![false; 65537];
    for x in 0..=255u8 {
        for y in 0..=255u8 {
            let n: usize = bayer(x, y) as usize;
            assert!(!seen[n]);
            seen[n] = true;
        }
    }
}

#[test]
fn bias_mirrors_about_the_dither_size() {
    assert_eq!(DITHER_SIZE, 128);
    assert_eq!(bayer_bias(0, 0), [1, 4, 3, 2]);
    assert_eq!(bayer_bias(3, 5), [bayer(3, 5), bayer(125, 5), bayer(3, 123), bayer(125, 123)]);
    assert_eq!(bayer_bias(129, 200), [bayer(129, 200), bayer(255, 200), bayer(129, 184), bayer(255, 184)]);
    for x in 0..=255u8 {
        for y in 0..=255u8 {
            let mx: u8 = 128u8.wrapping_sub(x);
            let my: u8 = 128u8.wrapping_sub(y);
            let b: [u32; 4] = bayer_bias(x, y);
            assert_eq!(b[0], bayer(x, y));
            assert_eq!(b[1], bayer_bias(mx, y)[0]);
            assert_eq!(b[2], bayer_bias(x, my)[0]);
            assert_eq!(b[3], bayer_bias(mx, my)[0]);
        }
    }
}
