use rawstdraw::marshal::{
    narrow_coordinate, point_to_native, reinterpret_u32, truncate_coordinate, truncate_count,
};
use rawstdraw::{marshal_text, pack_color, unpack_color, Color, DrawError, Point, RDPoint};

#[test]
fn pack_puts_first_channel_lowest() {
    assert_eq!(pack_color(Color(0xff, 0x33, 0x33, 0x33)), 0x3333_33ff);
    assert_eq!(pack_color(Color(0x01, 0x02, 0x03, 0x04)), 0x0403_0201);
    assert_eq!(pack_color(Color(0, 0, 0, 0)), 0);
    assert_eq!(pack_color(Color(0xff, 0xff, 0xff, 0xff)), 0xffff_ffff);
    assert_eq!(pack_color(Color(0, 0, 0, 1)), 16_777_216);
}

#[test]
fn pack_agrees_with_little_endian_bytes() {
    let samples = [[0u8, 0, 0, 0], [1, 2, 3, 4], [255, 0, 128, 7], [9, 255, 255, 1]];
    for s in samples {
        assert_eq!(pack_color(Color(s[0], s[1], s[2], s[3])), u32::from_le_bytes(s));
    }
}

#[test]
fn unpack_reads_lowest_byte_first() {
    assert_eq!(unpack_color(0x0403_0201), Color(1, 2, 3, 4));
    assert_eq!(unpack_color(0), Color(0, 0, 0, 0));
    assert_eq!(unpack_color(0xffff_ffff), Color(255, 255, 255, 255));
    assert_eq!(unpack_color(0x8000_0000), Color(0, 0, 0, 0x80));
}

#[test]
fn pack_then_unpack_gives_the_colour_back() {
    let edge = [0u8, 1, 2, 127, 128, 254, 255];
    for a in edge {
        for b in edge {
            for c in edge {
                for d in edge {
                    let color = Color(a, b, c, d);
                    assert_eq!(unpack_color(pack_color(color)), color);
                }
            }
        }
    }
}

#[test]
fn unpack_then_pack_gives_the_word_back() {
    for word in [0u32, 1, 255, 256, 65_535, 65_536, 0x1234_5678, 0x8000_0000, u32::MAX] {
        assert_eq!(pack_color(unpack_color(word)), word);
    }
}

#[test]
fn narrow_coordinate_wraps_above_the_signed_range() {
    assert_eq!(narrow_coordinate(0), 0);
    assert_eq!(narrow_coordinate(600), 600);
    assert_eq!(narrow_coordinate(32_767), 32_767);
    assert_eq!(narrow_coordinate(32_768), -32_768);
    assert_eq!(narrow_coordinate(40_000), -25_536);
    assert_eq!(narrow_coordinate(65_535), -1);
}

#[test]
fn point_to_native_narrows_both_coordinates() {
    assert_eq!(point_to_native(Point { x: 10, y: 300 }), RDPoint { x: 10, y: 300 });
    assert_eq!(point_to_native(Point { x: 65_535, y: 32_768 }), RDPoint { x: -1, y: -32_768 });
}

#[test]
fn reinterpret_keeps_the_bits() {
    assert_eq!(reinterpret_u32(0), 0);
    assert_eq!(reinterpret_u32(27), 27);
    assert_eq!(reinterpret_u32(i32::MAX), 2_147_483_647);
    assert_eq!(reinterpret_u32(-1), 4_294_967_295);
    assert_eq!(reinterpret_u32(i32::MIN), 2_147_483_648);
}

#[test]
fn truncate_coordinate_keeps_the_low_bits() {
    assert_eq!(truncate_coordinate(0), 0);
    assert_eq!(truncate_coordinate(65_535), 65_535);
    assert_eq!(truncate_coordinate(65_536), 0);
    assert_eq!(truncate_coordinate(70_000), 4_464);
    assert_eq!(truncate_coordinate(-1), 65_535);
    assert_eq!(truncate_coordinate(i32::MIN), 0);
    assert_eq!(truncate_coordinate(i32::MAX), 65_535);
}

#[test]
fn truncate_count_keeps_small_lengths() {
    assert_eq!(truncate_count(0), 0);
    assert_eq!(truncate_count(3), 3);
    assert_eq!(truncate_count(2_147_483_647), 2_147_483_647);
}

#[test]
fn marshal_text_appends_one_zero() {
    assert_eq!(marshal_text("abc"), Ok(vec![97, 98, 99, 0]));
    assert_eq!(marshal_text(""), Ok(vec![0]));
    assert_eq!(marshal_text("Rawstdraw example").unwrap().len(), 18);
}

#[test]
fn marshal_text_keeps_utf8_bytes() {
    assert_eq!(marshal_text("\u{e9}"), Ok(vec![0xc3, 0xa9, 0]));
    assert_eq!(marshal_text("\u{20ac}1"), Ok(vec![0xe2, 0x82, 0xac, 0x31, 0]));
}

#[test]
fn marshal_text_refuses_an_embedded_zero() {
    assert_eq!(marshal_text("a\0b"), Err(DrawError::InvalidText));
    assert_eq!(marshal_text("\0"), Err(DrawError::InvalidText));
    assert_eq!(marshal_text("title\0"), Err(DrawError::InvalidText));
    assert_eq!(marshal_text("\0title"), Err(DrawError::InvalidText));
}
