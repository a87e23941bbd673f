//! Horizontal layout against a font: glyph resolution, kerning, advances.
//!
//! The font itself is an outside collaborator (`ttf_parser`); its lookups are
//! consumed through trusted wrappers. Every layout decision — which kerning
//! subtable wins, how the running offset accumulates, when a missing glyph
//! aborts — is made here, in verified code, over the plain values those
//! lookups return. A missing glyph always fails the whole layout call with
//! `GlyphNotFoundError`; glyphs are never silently skipped.
use vstd::prelude::*;

use crate::builder::LyonPathBuilder;

verus! {

/// A requested character has no glyph in the font. Fatal for the layout
/// call.
#[derive(Clone, Copy, PartialEq, Eq, Structural, Debug)]
pub struct GlyphNotFoundError;

/// The font collaborator could not supply a face: the file could not be
/// read, or its data did not parse.
#[derive(Debug)]
pub enum FontLoadingError {
    /// The font data is malformed.
    FaceParsingError(ttf_parser::FaceParsingError),
    /// The font file could not be read.
    IOError,
}

impl FontLoadingError {
    /// The error's description, in words.
    pub fn message(&self) -> (r: String)
        ensures
            self is FaceParsingError ==> r@ == "malformed font data"@,
            self is IOError ==> r@ == "the font file could not be read"@,
    {
        match self {
            FontLoadingError::FaceParsingError(_) => String::from_str("malformed font data"),
            FontLoadingError::IOError => String::from_str("the font file could not be read"),
        }
    }
}

/// What one kerning subtable answers for one glyph pair: whether the
/// subtable is for horizontal text, and its value for the pair, if it
/// defines one.
#[derive(Clone, Copy, PartialEq, Eq, Structural, Debug)]
pub struct KernProbe {
    /// The subtable is flagged horizontal.
    pub horizontal: bool,
    /// The subtable's kerning value for the probed pair.
    pub value: Option<i16>,
}

/// Declares ttf_parser::Face, the parsed font the lookups below consult; the
/// value is opaque here.
#[verifier::external_type_specification]
#[verifier::external_body]
pub struct ExFace<'a>(ttf_parser::Face<'a>);

/// Declares ttf_parser::FaceParsingError, the parser's report of malformed
/// font data; the value is opaque here and only carried.
#[verifier::external_type_specification]
#[verifier::external_body]
pub struct ExFaceParsingError(ttf_parser::FaceParsingError);

/// Relies on ttf_parser::Face::glyph_index: resolves a character through the
/// font's character map, returning its glyph index if the font has one.
#[verifier::external_body]
pub(crate) fn face_glyph_index(face: &ttf_parser::Face, c: char) -> (r: Option<u16>) {
    face.glyph_index(c).map(|g| g.0)
}

/// Relies on ttf_parser::Face::glyph_hor_advance: the glyph's horizontal
/// advance from the font's metrics table, if the font reports one.
#[verifier::external_body]
pub(crate) fn face_glyph_hor_advance(face: &ttf_parser::Face, glyph: u16) -> (r: Option<u16>) {
    face.glyph_hor_advance(ttf_parser::GlyphId(glyph))
}

/// Relies on ttf_parser's kern table: walks the kerning subtables in source
/// order and records, for each, its horizontal flag and its
/// kern::Subtable::glyphs_kerning value for the pair.
#[verifier::external_body]
pub(crate) fn face_kerning_probes(face: &ttf_parser::Face, left: u16, right: u16) -> (r: Vec<
    KernProbe,
>) {
    let mut v = Vec::new();
    if let Some(kern) = face.tables().kern {
        for st in kern.subtables {
            v.push(
                KernProbe {
                    horizontal: st.horizontal,
                    value: st.glyphs_kerning(
                        ttf_parser::GlyphId(left),
                        ttf_parser::GlyphId(right),
                    ),
                },
            );
        }
    }
    v
}

/// The kerning the subtable answers select: the first subtable that is
/// horizontal and defines a value for the pair wins; with no such subtable
/// the kerning is zero.
pub open spec fn spec_find_kerning(s: Seq<KernProbe>) -> i16
    decreases s.len(),
{
    if s.len() == 0 {
        0i16
    } else if s[0].horizontal && s[0].value is Some {
        s[0].value->0
    } else {
        spec_find_kerning(s.skip(1))
    }
}

/// Picks the kerning value for a glyph pair from the subtables' answers, in
/// source order: the first horizontal subtable that defines a value wins,
/// and the default is zero.
pub fn find_kerning(probes: &Vec<KernProbe>) -> (r: i16)
    ensures
        r == spec_find_kerning(probes@),
{
    let n: usize = probes.len();
    let mut i: usize = 0;
    assert(probes@.skip(0) =~= probes@);
    while i < n
        invariant
            0 <= i <= n,
            n == probes@.len(),
            spec_find_kerning(probes@) == spec_find_kerning(probes@.skip(i as int)),
            forall|k: int| 0 <= k < i ==> !(probes@[k].horizontal && probes@[k].value is Some),
        decreases n - i,
    {
        let p = probes[i];
        if p.horizontal {
            if let Some(k) = p.value {
                assert(probes@.skip(i as int)[0] == probes@[i as int]);
                return k;
            }
        }
        proof {
            assert(probes@.skip(i as int)[0] == probes@[i as int]);
            assert(probes@.skip(i as int).skip(1) =~= probes@.skip(i as int + 1));
        }
        i = i + 1;
    }
    assert(probes@.skip(n as int) =~= Seq::<KernProbe>::empty());
    0
}

/// Law: when an earlier and a later subtable both define a value for the
/// pair, the earlier one's value is used, never the later one's. `i` is the
/// first subtable that is horizontal and defines a value; whatever any
/// subtable after it answers, the selection is `s[i]`'s value.
pub proof fn lemma_kerning_first_match_wins(s: Seq<KernProbe>, i: int)
    requires
        0 <= i < s.len(),
        s[i].horizontal,
        s[i].value is Some,
        forall|k: int| 0 <= k < i ==> !(s[k].horizontal && s[k].value is Some),
    ensures
        spec_find_kerning(s) == s[i].value->0,
    decreases i,
{
    if i == 0 {
    } else {
        assert(s.skip(1)[i - 1] == s[i]);
        assert(forall|k: int| 0 <= k < i - 1 ==> s.skip(1)[k] == s[k + 1]);
        lemma_kerning_first_match_wins(s.skip(1), i - 1);
    }
}

/// The offset movement an advance answer causes: the reported advance, or
/// none reported, no movement.
pub open spec fn spec_advance(a: Option<u16>) -> int {
    match a {
        Some(v) => v as int,
        None => 0,
    }
}

impl LyonPathBuilder {
    /// Moves the running horizontal offset by the kerning the subtables'
    /// answers select. Nothing else of the builder changes.
    pub fn apply_kerning(&mut self, probes: &Vec<KernProbe>)
        requires
            old(self).offset_in_range(),
        ensures
            final(self).offset_x == old(self).offset_x + spec_find_kerning(probes@),
            *final(self) == (LyonPathBuilder { offset_x: final(self).offset_x, ..*old(self) }),
    {
        let k = find_kerning(probes);
        self.offset_x = self.offset_x + (k as i64);
    }

    /// Moves the running horizontal offset right by the glyph's reported
    /// advance; a glyph the font reports no advance for leaves the offset
    /// unchanged. Nothing else of the builder changes.
    pub fn apply_advance(&mut self, advance: Option<u16>)
        requires
            old(self).offset_in_range(),
        ensures
            final(self).offset_x == old(self).offset_x + spec_advance(advance),
            *final(self) == (LyonPathBuilder { offset_x: final(self).offset_x, ..*old(self) }),
    {
        if let Some(a) = advance {
            self.offset_x = self.offset_x + (a as i64);
        }
    }

    /// Starts layout of one character: resolves it to a glyph — failing the
    /// call if the font has none — and, when a previous glyph is given,
    /// applies the kerning between the pair to the running offset.
    pub fn start_glyph(&mut self, face: &ttf_parser::Face, c: char, prev_glyph: Option<u16>) -> (r:
        Result<u16, GlyphNotFoundError>)
        requires
            old(self).offset_in_range(),
        ensures
            r is Err ==> *final(self) == *old(self),
            *final(self) == (LyonPathBuilder { offset_x: final(self).offset_x, ..*old(self) }),
            old(self).offset_x - 0x8000 <= final(self).offset_x <= old(self).offset_x + 0x8000,
            prev_glyph is None ==> final(self).offset_x == old(self).offset_x,
    {
        match face_glyph_index(face, c) {
            None => Err(GlyphNotFoundError),
            Some(g) => {
                if let Some(prev) = prev_glyph {
                    let probes = face_kerning_probes(face, prev, g);
                    self.apply_kerning(&probes);
                }
                Ok(g)
            },
        }
    }

    /// Finishes layout of one character: applies the glyph's horizontal
    /// advance, if the font reports one, and steps to the next glyph index.
    pub fn finish_glyph(&mut self, face: &ttf_parser::Face, glyph: u16)
        requires
            old(self).offset_in_range(),
            old(self).cur_glyph_id < u32::MAX,
        ensures
            final(self).cur_glyph_id == old(self).cur_glyph_id + 1,
            old(self).offset_x <= final(self).offset_x <= old(self).offset_x + 0xffff,
            *final(self) == (LyonPathBuilder {
                offset_x: final(self).offset_x,
                cur_glyph_id: final(self).cur_glyph_id,
                ..*old(self)
            }),
    {
        let advance = face_glyph_hor_advance(face, glyph);
        self.apply_advance(advance);
        self.cur_glyph_id = self.cur_glyph_id + 1;
    }
}

} // verus!
