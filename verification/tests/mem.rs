use early_boot::mem::{memcmp, memcpy, memmove, memset};

fn pattern(len: usize) -> Vec<u8> {
    let mut image = Vec::with_capacity(len);
    let mut state: u32 = 0x1234_5678;
    for _ in 0..len {
        state = state.wrapping_mul(1_103_515_245).wrapping_add(12_345);
        image.push((state >> 16) as u8);
    }
    image
}

fn read_then_write(image: &[u8], dest: usize, src: usize, n: usize) -> Vec<u8> {
    let source: Vec<u8> = image[src..src + n].to_vec();
    let mut out = image.to_vec();
    for i in 0..n {
        out[dest + i] = source[i];
    }
    out
}

fn check_move(image: &[u8], dest: usize, src: usize, n: usize) {
    let expected = read_then_write(image, dest, src, n);
    let mut moved = image.to_vec();
    let ret = memmove(&mut moved, dest, src, n);
    assert_eq!(ret, dest);
    assert_eq!(moved, expected, "dest {} src {} n {}", dest, src, n);
}

#[test]
fn memmove_agrees_with_read_then_write() {
    let image = pattern(1400);
    let distances: [usize; 14] = [0, 1, 2, 7, 8, 9, 15, 16, 31, 63, 64, 65, 100, 600];
    for n in 0..=512usize {
        for align in 0..8usize {
            for &distance in distances.iter() {
                let low = 64 + align;
                let high = low + distance;
                // destination above the source
                check_move(&image, high, low, n);
                // destination below the source
                check_move(&image, low, high, n);
            }
        }
    }
}

#[test]
fn memmove_identical_range_changes_nothing() {
    let image = pattern(700);
    for n in 0..=512usize {
        for align in 0..8usize {
            let mut moved = image.clone();
            memmove(&mut moved, 32 + align, 32 + align, n);
            assert_eq!(moved, image);
        }
    }
}

#[test]
fn memmove_small_overhang_shifts_up() {
    let mut image: Vec<u8> = (0u8..40).collect();
    memmove(&mut image, 3, 0, 30);
    let mut expected: Vec<u8> = (0u8..40).collect();
    for i in 0..30 {
        expected[3 + i] = i as u8;
    }
    assert_eq!(image, expected);
}

#[test]
fn memmove_large_overhang_moves_in_pieces() {
    let mut image: Vec<u8> = (0..600usize).map(|i| (i % 251) as u8).collect();
    let before = image.clone();
    memmove(&mut image, 100, 0, 450);
    for i in 0..600usize {
        if (100..550).contains(&i) {
            assert_eq!(image[i], before[i - 100]);
        } else {
            assert_eq!(image[i], before[i]);
        }
    }
}

#[test]
fn memmove_shifts_down() {
    let mut image: Vec<u8> = vec![10, 11, 12, 13, 14, 15, 16, 17];
    memmove(&mut image, 0, 2, 5);
    assert_eq!(image, vec![12, 13, 14, 15, 16, 15, 16, 17]);
}

#[test]
fn memmove_of_nothing_takes_any_address() {
    let mut image: Vec<u8> = vec![1, 2, 3];
    assert_eq!(memmove(&mut image, 1000, 7, 0), 1000);
    assert_eq!(memmove(&mut image, 7, 1000, 0), 7);
    assert_eq!(image, vec![1, 2, 3]);
}

#[test]
fn memcpy_copies_disjoint_ranges() {
    let mut image: Vec<u8> = vec![1, 2, 3, 4, 0, 0, 0, 0, 9];
    let ret = memcpy(&mut image, 4, 0, 4);
    assert_eq!(ret, 4);
    assert_eq!(image, vec![1, 2, 3, 4, 1, 2, 3, 4, 9]);
}

#[test]
fn memcpy_downwards_overlap_is_a_move() {
    let mut image: Vec<u8> = vec![1, 2, 3, 4, 5, 6];
    memcpy(&mut image, 0, 1, 5);
    assert_eq!(image, vec![2, 3, 4, 5, 6, 6]);
}

#[test]
fn memcpy_upwards_overlap_repeats_the_source() {
    let mut image: Vec<u8> = vec![1, 2, 3, 4, 5, 6, 7];
    memcpy(&mut image, 2, 0, 5);
    assert_eq!(image, vec![1, 2, 1, 2, 1, 2, 1]);
}

#[test]
fn memcpy_of_nothing_takes_any_address() {
    let mut image: Vec<u8> = vec![1, 2, 3];
    assert_eq!(memcpy(&mut image, 55, 99, 0), 55);
    assert_eq!(image, vec![1, 2, 3]);
}

#[test]
fn memset_sets_only_the_range() {
    let mut image: Vec<u8> = vec![1, 2, 3, 4, 5, 6];
    let ret = memset(&mut image, 2, 0xAB, 3);
    assert_eq!(ret, 2);
    assert_eq!(image, vec![1, 2, 0xAB, 0xAB, 0xAB, 6]);
}

#[test]
fn memset_takes_the_low_eight_bits() {
    let mut image: Vec<u8> = vec![0; 4];
    memset(&mut image, 0, 0x141, 1);
    memset(&mut image, 1, -1, 1);
    memset(&mut image, 2, 0x7FFF_FF00, 1);
    memset(&mut image, 3, i32::MIN + 0x12, 1);
    assert_eq!(image, vec![0x41, 0xFF, 0x00, 0x12]);
}

#[test]
fn memset_of_nothing_takes_any_address() {
    let mut image: Vec<u8> = vec![1, 2, 3];
    assert_eq!(memset(&mut image, 4096, 7, 0), 4096);
    assert_eq!(image, vec![1, 2, 3]);
}

#[test]
fn fill_then_compare_with_loop_fill() {
    let sizes: [usize; 6] = [0, 1, 7, 8, 9, 4096];
    for &n in sizes.iter() {
        let mut image: Vec<u8> = pattern(2 * 4096 + 16);
        let before = image.clone();
        let first: usize = 3;
        let second: usize = 4096 + 11;
        memset(&mut image, first, 0x5A, n);
        for i in 0..n {
            image[second + i] = 0x5A;
        }
        assert_eq!(memcmp(&image, first, second, n), 0);
        for i in 0..image.len() {
            let inside = (first..first + n).contains(&i) || (second..second + n).contains(&i);
            if !inside {
                assert_eq!(image[i], before[i]);
            }
        }
    }
}

#[test]
fn compare_equal_ranges_gives_zero() {
    let image: Vec<u8> = vec![1, 2, 3, 9, 1, 2, 3, 8];
    assert_eq!(memcmp(&image, 0, 4, 3), 0);
    assert_eq!(memcmp(&image, 0, 0, 8), 0);
}

#[test]
fn compare_sign_follows_first_difference() {
    // a = [1, 2, 3], b = [1, 2, 5]
    let image: Vec<u8> = vec![1, 2, 3, 1, 2, 5];
    let below = memcmp(&image, 0, 3, 3);
    assert!(below < 0);
    assert_eq!(below, -2);
    let above = memcmp(&image, 3, 0, 3);
    assert!(above > 0);
    assert_eq!(above, 2);
}

#[test]
fn compare_stops_at_first_difference() {
    // the ranges differ at index 1 by -1 and at index 2 by +200
    let image: Vec<u8> = vec![7, 1, 250, 7, 2, 50];
    assert_eq!(memcmp(&image, 0, 3, 3), -1);
    assert_eq!(memcmp(&image, 0, 3, 1), 0);
}

#[test]
fn compare_bytes_as_unsigned() {
    let image: Vec<u8> = vec![0xFF, 0x00];
    assert_eq!(memcmp(&image, 0, 1, 1), 255);
    assert_eq!(memcmp(&image, 1, 0, 1), -255);
}

#[test]
fn compare_of_nothing_takes_any_address() {
    let image: Vec<u8> = vec![1, 2, 3];
    assert_eq!(memcmp(&image, 100, 200, 0), 0);
}
