//! Layout against a small synthetic font: three glyphs, 'A' mapped to glyph
//! 1 with advance 100, 'B' to glyph 2 with advance 250, and two horizontal
//! kerning subtables that both define a value for the pair (1, 2).
use abglyph::builder::LyonPathBuilder;

fn push_u16(v: &mut Vec<u8>, x: u16) {
    v.extend_from_slice(&x.to_be_bytes());
}

fn push_u32(v: &mut Vec<u8>, x: u32) {
    v.extend_from_slice(&x.to_be_bytes());
}

fn push_i16(v: &mut Vec<u8>, x: i16) {
    v.extend_from_slice(&x.to_be_bytes());
}

fn head_table() -> Vec<u8> {
    let mut t = Vec::new();
    push_u32(&mut t, 0x0001_0000); // version
    push_u32(&mut t, 0); // font revision
    push_u32(&mut t, 0); // checksum adjustment
    push_u32(&mut t, 0x5F0F_3CF5); // magic
    push_u16(&mut t, 0); // flags
    push_u16(&mut t, 1000); // units per em
    t.extend_from_slice(&[0u8; 16]); // created + modified
    push_i16(&mut t, 0); // x min
    push_i16(&mut t, 0); // y min
    push_i16(&mut t, 1000); // x max
    push_i16(&mut t, 1000); // y max
    push_u16(&mut t, 0); // mac style
    push_u16(&mut t, 8); // lowest rec ppem
    push_i16(&mut t, 2); // font direction hint
    push_u16(&mut t, 0); // index to location format
    push_u16(&mut t, 0); // glyph data format
    assert_eq!(t.len(), 54);
    t
}

fn hhea_table(number_of_metrics: u16) -> Vec<u8> {
    let mut t = Vec::new();
    push_u32(&mut t, 0x0001_0000); // version
    push_i16(&mut t, 800); // ascender
    push_i16(&mut t, -200); // descender
    push_i16(&mut t, 0); // line gap
    t.extend_from_slice(&[0u8; 24]); // metrics extents, caret, reserved
    push_u16(&mut t, number_of_metrics);
    assert_eq!(t.len(), 36);
    t
}

fn maxp_table(number_of_glyphs: u16) -> Vec<u8> {
    let mut t = Vec::new();
    push_u32(&mut t, 0x0000_5000); // version 0.5
    push_u16(&mut t, number_of_glyphs);
    t
}

fn cmap_table() -> Vec<u8> {
    let mut t = Vec::new();
    push_u16(&mut t, 0); // version
    push_u16(&mut t, 1); // one encoding record
    push_u16(&mut t, 0); // platform: Unicode
    push_u16(&mut t, 3); // encoding
    push_u32(&mut t, 12); // subtable offset
    push_u16(&mut t, 0); // format 0
    push_u16(&mut t, 262); // length
    push_u16(&mut t, 0); // language
    let mut ids = [0u8; 256];
    ids[b'A' as usize] = 1;
    ids[b'B' as usize] = 2;
    t.extend_from_slice(&ids);
    assert_eq!(t.len(), 274);
    t
}

fn hmtx_table(advances: &[u16]) -> Vec<u8> {
    let mut t = Vec::new();
    for &a in advances {
        push_u16(&mut t, a);
        push_i16(&mut t, 0); // side bearing
    }
    t
}

fn kern_subtable(left: u16, right: u16, value: i16) -> Vec<u8> {
    let mut t = Vec::new();
    push_u16(&mut t, 0); // subtable version
    push_u16(&mut t, 20); // subtable length
    t.push(0); // format 0
    t.push(0x01); // coverage: horizontal
    push_u16(&mut t, 1); // one pair
    push_u16(&mut t, 6); // search range
    push_u16(&mut t, 0); // entry selector
    push_u16(&mut t, 0); // range shift
    push_u16(&mut t, left);
    push_u16(&mut t, right);
    push_i16(&mut t, value);
    assert_eq!(t.len(), 20);
    t
}

fn kern_table(subtables: &[Vec<u8>]) -> Vec<u8> {
    let mut t = Vec::new();
    push_u16(&mut t, 0); // version
    push_u16(&mut t, subtables.len() as u16);
    for st in subtables {
        t.extend_from_slice(st);
    }
    t
}

fn synthetic_font() -> Vec<u8> {
    let tables: Vec<([u8; 4], Vec<u8>)> = vec![
        (*b"cmap", cmap_table()),
        (*b"head", head_table()),
        (*b"hhea", hhea_table(3)),
        (*b"hmtx", hmtx_table(&[500, 100, 250])),
        (
            *b"kern",
            kern_table(&[kern_subtable(1, 2, -40), kern_subtable(1, 2, 77)]),
        ),
        (*b"maxp", maxp_table(3)),
    ];
    let mut font = Vec::new();
    push_u32(&mut font, 0x0001_0000); // sfnt magic
    push_u16(&mut font, tables.len() as u16);
    push_u16(&mut font, 0); // search range
    push_u16(&mut font, 0); // entry selector
    push_u16(&mut font, 0); // range shift
    let mut offset = 12 + 16 * tables.len() as u32;
    for (tag, data) in &tables {
        font.extend_from_slice(tag);
        push_u32(&mut font, 0); // checksum
        push_u32(&mut font, offset);
        push_u32(&mut font, data.len() as u32);
        offset += data.len() as u32;
    }
    for (_, data) in &tables {
        font.extend_from_slice(data);
    }
    font
}

#[test]
fn layout_accumulates_advance_and_kerning() {
    let data = synthetic_font();
    let face = ttf_parser::Face::parse(&data, 0).unwrap();
    let mut b = LyonPathBuilder::new(1);

    let g_a = b.start_glyph(&face, 'A', None).unwrap();
    assert_eq!(g_a, 1);
    assert_eq!(b.offset_x, 0); // no previous glyph: no kerning
    b.finish_glyph(&face, g_a);
    assert_eq!(b.offset_x, 100); // A's advance
    assert_eq!(b.cur_glyph_id, 1);

    let g_b = b.start_glyph(&face, 'B', Some(g_a)).unwrap();
    assert_eq!(g_b, 2);
    // Both kerning subtables define the pair (1, 2): the first one's -40 is
    // used, never the second one's 77.
    assert_eq!(b.offset_x, 60);
    b.finish_glyph(&face, g_b);
    assert_eq!(b.offset_x, 310); // B's advance
    assert_eq!(b.cur_glyph_id, 2);
}

#[test]
fn missing_glyph_fails_the_call() {
    let data = synthetic_font();
    let face = ttf_parser::Face::parse(&data, 0).unwrap();
    let mut b = LyonPathBuilder::new(1);

    let before = b.offset_x;
    let r = b.start_glyph(&face, 'Z', None);
    assert!(r.is_err());
    assert_eq!(b.offset_x, before);
    assert_eq!(b.cur_glyph_id, 0);
}
