use keyboard_heatmap::key_box::KeyTextsLayout;
use keyboard_heatmap::keyboard::KeyboardType;
use keyboard_heatmap::screenshot::{
    flip_rows, frame_len, keyboard_area, BYTES_PER_PIXEL, MAC_SPARE_WIDTH, MARGIN_WIDTH,
    TOOLBAR_HEIGHT,
};

/// The rows of `pixels` in reverse order, by way of the standard library.
fn reversed_chunks(pixels: &[u8], row_len: usize) -> Vec<u8> {
    let mut rows: Vec<Vec<u8>> = pixels.chunks(row_len).map(|row| row.to_vec()).collect();
    rows.reverse();
    rows.into_iter().flatten().collect()
}

#[test]
fn layouts_have_their_names() {
    assert_eq!(KeyboardType::QwertyMac.description(), "MacBook");
    assert_eq!(KeyboardType::Qwerty87.description(), "87 Keys");
    assert!(KeyboardType::QwertyMac != KeyboardType::Qwerty87);
}

#[test]
fn a_layout_of_legends_can_be_copied() {
    let double = KeyTextsLayout::TopBottom(("!".to_string(), "1".to_string()));
    match double.clone() {
        KeyTextsLayout::TopBottom((top, bottom)) => {
            assert_eq!(top, "!");
            assert_eq!(bottom, "1");
        }
        KeyTextsLayout::Center1(_) => panic!("two legends became one"),
    }
    let single = KeyTextsLayout::Center1("Esc".to_string());
    match single.clone() {
        KeyTextsLayout::Center1(text) => assert_eq!(text, "Esc"),
        KeyTextsLayout::TopBottom(_) => panic!("one legend became two"),
    }
}

#[test]
fn the_keyboard_area_leaves_out_margin_and_toolbar() {
    assert_eq!(TOOLBAR_HEIGHT, 120);
    assert_eq!(MARGIN_WIDTH, 20);
    assert_eq!(MAC_SPARE_WIDTH, 420);
    assert_eq!(keyboard_area(KeyboardType::Qwerty87, [1120, 450]), [1100, 330]);
    assert_eq!(keyboard_area(KeyboardType::QwertyMac, [1120, 450]), [680, 330]);
    assert_eq!(keyboard_area(KeyboardType::Qwerty87, [900, 450]), [880, 330]);
}

#[test]
fn each_layout_leaves_its_width_unused() {
    assert_eq!(KeyboardType::Qwerty87.unused_width(), 20);
    assert_eq!(KeyboardType::QwertyMac.unused_width(), 440);
}

#[test]
fn the_smallest_windows_leave_no_area() {
    assert_eq!(keyboard_area(KeyboardType::Qwerty87, [20, 120]), [0, 0]);
    assert_eq!(keyboard_area(KeyboardType::QwertyMac, [440, 120]), [0, 0]);
    assert_eq!(keyboard_area(KeyboardType::QwertyMac, [441, 121]), [1, 1]);
    assert_eq!(
        keyboard_area(KeyboardType::Qwerty87, [u32::MAX, u32::MAX]),
        [u32::MAX - 20, u32::MAX - 120]
    );
}

#[test]
fn a_frame_takes_four_bytes_a_pixel() {
    assert_eq!(BYTES_PER_PIXEL, 4);
    assert_eq!(frame_len(1100, 330), Some(1_452_000));
    assert_eq!(frame_len(680, 330), Some(897_600));
    assert_eq!(frame_len(1, 1), Some(4));
    assert_eq!(frame_len(0, 330), Some(0));
    assert_eq!(frame_len(1100, 0), Some(0));
}

#[test]
fn a_frame_too_large_has_no_length() {
    assert_eq!(frame_len(u32::MAX, u32::MAX), None);
    let wide = u32::MAX as u128 * 2 * 4;
    let expected = if wide <= usize::MAX as u128 { Some(wide as usize) } else { None };
    assert_eq!(frame_len(u32::MAX, 2), expected);
}

#[test]
fn flipping_reverses_the_rows() {
    assert_eq!(flip_rows(&vec![1, 2, 3, 4, 5, 6], 2), vec![5, 6, 3, 4, 1, 2]);
    assert_eq!(flip_rows(&vec![1, 2, 3, 4, 5, 6], 3), vec![4, 5, 6, 1, 2, 3]);
    assert_eq!(flip_rows(&vec![1, 2, 3, 4, 5, 6], 1), vec![6, 5, 4, 3, 2, 1]);
}

#[test]
fn flipping_one_row_or_none_changes_nothing() {
    assert_eq!(flip_rows(&Vec::new(), 4), Vec::<u8>::new());
    assert_eq!(flip_rows(&vec![7], 1), vec![7]);
    assert_eq!(flip_rows(&vec![1, 2, 3], 3), vec![1, 2, 3]);
    assert_eq!(flip_rows(&vec![1, 2, 3], 8), vec![1, 2, 3]);
    assert_eq!(flip_rows(&vec![1, 2, 3], usize::MAX), vec![1, 2, 3]);
}

#[test]
fn a_short_last_row_comes_first() {
    assert_eq!(flip_rows(&vec![1, 2, 3, 4, 5], 2), vec![5, 3, 4, 1, 2]);
    assert_eq!(flip_rows(&vec![1, 2, 3, 4, 5, 6, 7], 3), vec![7, 4, 5, 6, 1, 2, 3]);
}

#[test]
fn flipping_agrees_with_reversed_chunks() {
    for len in 0..40usize {
        let pixels: Vec<u8> = (0..len).map(|i| (i * 7 + 3) as u8).collect();
        for row_len in 1..12usize {
            assert_eq!(flip_rows(&pixels, row_len), reversed_chunks(&pixels, row_len));
        }
    }
}

#[test]
fn flipping_a_frame_twice_restores_it() {
    let area = keyboard_area(KeyboardType::QwertyMac, [460, 133]);
    let len = frame_len(area[0], area[1]).unwrap();
    let pixels: Vec<u8> = (0..len).map(|i| (i % 251) as u8).collect();
    let row_len = area[0] as usize * BYTES_PER_PIXEL;
    let flipped = flip_rows(&pixels, row_len);
    assert_eq!(flipped.len(), pixels.len());
    assert_eq!(flipped[..row_len], pixels[len - row_len..]);
    assert_eq!(flip_rows(&flipped, row_len), pixels);
}
