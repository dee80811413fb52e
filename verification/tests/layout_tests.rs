//! The greedy chip layout, label measuring, and the colour rules.

use zentui::colour::{is_light_colour, parse_hex_colour, Colour};
use zentui::github::Label;
use zentui::layout::{flow_layout, label_chip_width, layout_labels};

fn label(name: &str, red: u8, green: u8, blue: u8) -> Label {
    Label { name: name.to_owned(), color: Colour { red, green, blue } }
}

#[test]
fn white_is_light_and_black_is_dark() {
    assert!(is_light_colour(&Colour { red: 255, green: 255, blue: 255 }));
    assert!(!is_light_colour(&Colour { red: 0, green: 0, blue: 0 }));
}

#[test]
fn luminance_threshold_is_exact() {
    // Pure green crosses the threshold between 248 and 249:
    // 587 * 249 = 146163 > 146000, while 587 * 248 = 145576 is not.
    assert!(is_light_colour(&Colour { red: 0, green: 249, blue: 0 }));
    assert!(!is_light_colour(&Colour { red: 0, green: 248, blue: 0 }));
}

#[test]
fn chips_of_twenty_columns_scenario() {
    let widths = vec![5usize, 13, 4];
    let packed = flow_layout(20, &widths);
    assert_eq!(packed.placements.len(), 3);
    assert_eq!((packed.placements[0].row, packed.placements[0].col), (0, 0));
    // 5 + 1 + 13 = 19 <= 20: the second chip still fits on row 0.
    assert_eq!((packed.placements[1].row, packed.placements[1].col), (0, 6));
    assert_eq!((packed.placements[2].row, packed.placements[2].col), (1, 0));
    assert_eq!(packed.height, 2);
}

#[test]
fn rows_never_exceed_the_width_except_oversized_chips() {
    let widths = vec![3usize, 4, 12, 2, 9, 1];
    let width = 10usize;
    let packed = flow_layout(width, &widths);
    for (i, p) in packed.placements.iter().enumerate() {
        assert!(
            p.col == 0 || p.col + widths[i] <= width,
            "chip {} at col {} width {}",
            i,
            p.col,
            widths[i]
        );
        if widths[i] > width {
            assert_eq!(p.col, 0, "oversized chip {} must start its row", i);
        }
    }
}

#[test]
fn height_never_decreases_as_chips_are_appended() {
    let all = vec![4usize, 9, 2, 12, 1, 1, 7, 3];
    let mut previous = 0usize;
    for k in 0..=all.len() {
        let prefix: Vec<usize> = all[..k].to_vec();
        let packed = flow_layout(6, &prefix);
        assert!(packed.height >= previous, "height shrank at {}", k);
        previous = packed.height;
    }
}

#[test]
fn chip_width_counts_padding_and_wide_characters() {
    // " bug " is five columns; the measuring goes through the real
    // Unicode width tables, so a wide character counts two columns.
    assert_eq!(label_chip_width(&label("bug", 0, 0, 0)), 5);
    assert_eq!(label_chip_width(&label("日本", 0, 0, 0)), 6);
}

#[test]
fn labels_are_packed_like_their_measured_widths() {
    let labels = vec![
        label("bug", 255, 0, 0),
        label("help wanted", 0, 128, 0),
        label("P1", 255, 255, 255),
    ];
    // Padded widths: 5, 13, 4 on a 20 column canvas.
    let packed = layout_labels(20, &labels);
    assert_eq!(packed.placements.len(), 3);
    assert_eq!(packed.placements[0].width, 5);
    assert_eq!(packed.placements[1].width, 13);
    assert_eq!(packed.placements[2].width, 4);
    assert_eq!((packed.placements[1].row, packed.placements[1].col), (0, 6));
    assert_eq!((packed.placements[2].row, packed.placements[2].col), (1, 0));
    assert_eq!(packed.height, 2);
}

#[test]
fn ten_is_the_first_two_digit_number() {
    assert_eq!(zentui::decimal::u64_to_dec(9), "9");
    assert_eq!(zentui::decimal::u64_to_dec(10), "10");
}

#[test]
fn hex_colours_parse_to_channels() {
    assert_eq!(
        parse_hex_colour("ff8000"),
        Some(Colour { red: 255, green: 128, blue: 0 })
    );
    assert_eq!(parse_hex_colour("FFF"), Some(Colour { red: 0, green: 15, blue: 255 }));
    assert_eq!(parse_hex_colour("0"), Some(Colour { red: 0, green: 0, blue: 0 }));
    // Bytes above the low three are ignored, as the wire format does.
    assert_eq!(
        parse_hex_colour("12345678"),
        Some(Colour { red: 0x34, green: 0x56, blue: 0x78 })
    );
}

#[test]
fn hex_colour_rejects_empty_stray_and_oversized() {
    assert_eq!(parse_hex_colour(""), None);
    assert_eq!(parse_hex_colour("12zz34"), None);
    // Seventeen significant digits exceed 64 bits.
    assert_eq!(parse_hex_colour("10000000000000000"), None);
    // Leading zeros keep the value small, however long the text is.
    assert_eq!(
        parse_hex_colour("00000000000000000000ff"),
        Some(Colour { red: 0, green: 0, blue: 255 })
    );
}
