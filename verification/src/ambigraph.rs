use vstd::prelude::*;
use vstd::string::{StringExecFns, StrSliceExecFns};
use crate::text::{decimal, append_decimal, push_char, digit_char, occurs_at, contains_text, lemma_infix};
use crate::json::json_quoted;
use crate::chiral::{ChiralAxis, apply_chirality, spec_apply_chirality};
use crate::font::{FontParams, canvas_width, spec_translated};

verus! {

/// A pair of glyph ids: the canonical form and its chiral variant. An id
/// packs the Unicode code point in its high 16 bits and the variant index in
/// its low 16 bits.
#[derive(Clone, Copy, Debug, PartialEq, Eq, Structural)]
pub struct GlyphPair {
    pub canonical: u32,
    pub chiral: u32,
}

impl GlyphPair {
    /// Packs `codepoint` with variant 0 (canonical) and with `variant`
    /// (chiral).
    pub fn new(codepoint: u16, variant: u16) -> (pair: GlyphPair)
        ensures
            pair.canonical == codepoint as u32 * 65536,
            pair.chiral == codepoint as u32 * 65536 + variant as u32,
    {
        let canonical = (codepoint as u32) << 16u32 | 0u32;
        let chiral = (codepoint as u32) << 16u32 | (variant as u32);
        assert(canonical == codepoint as u32 * 65536 && chiral == codepoint as u32 * 65536
            + variant as u32) by (bit_vector)
            requires
                canonical == (codepoint as u32) << 16u32 | 0u32,
                chiral == (codepoint as u32) << 16u32 | (variant as u32),
        ;
        GlyphPair { canonical, chiral }
    }

    /// The code point held in the high 16 bits of a packed id.
    pub fn codepoint(packed: u32) -> (cp: u16)
        ensures
            cp == packed / 65536,
    {
        let cp = (packed >> 16u32) as u16;
        assert(cp == packed / 65536) by (bit_vector)
            requires
                cp == (packed >> 16u32) as u16,
        ;
        cp
    }

    /// The variant index held in the low 16 bits of a packed id.
    pub fn variant(packed: u32) -> (v: u16)
        ensures
            v == packed % 65536,
    {
        let v = packed as u16;
        assert(v == packed % 65536) by (bit_vector)
            requires
                v == packed as u16,
        ;
        v
    }
}

/// Packing and unpacking are inverse: a pair built from a code point and a
/// variant gives back the code point from both ids, variant 0 from the
/// canonical id and the variant from the chiral one.
pub proof fn lemma_glyph_pair_roundtrip(codepoint: u16, variant: u16)
    ensures
        (codepoint as u32 * 65536) / 65536 == codepoint,
        (codepoint as u32 * 65536) % 65536 == 0,
        (codepoint as u32 * 65536 + variant as u32) / 65536 == codepoint,
        (codepoint as u32 * 65536 + variant as u32) % 65536 == variant,
{
    assert((codepoint as u32 * 65536) / 65536 == codepoint) by (nonlinear_arith);
    assert((codepoint as u32 * 65536) % 65536 == 0) by (nonlinear_arith);
    assert((codepoint as u32 * 65536 + variant as u32) / 65536 == codepoint) by (nonlinear_arith)
        requires
            variant < 65536,
    ;
    assert((codepoint as u32 * 65536 + variant as u32) % 65536 == variant) by (nonlinear_arith)
        requires
            variant < 65536,
    ;
}

/// The canonical and primary chiral ids of the glyph that `glyph_id` names:
/// its code point with variant 0 and with variant 1.
pub open spec fn spec_pair(glyph_id: u32) -> (u32, u32) {
    let cp = glyph_id / 65536;
    ((cp * 65536) as u32, (cp * 65536 + 1) as u32)
}

/// Returns the canonical and primary chiral ids of the glyph that `glyph_id`
/// names.
pub fn pair(glyph_id: u32) -> (ids: (u32, u32))
    ensures
        ids == spec_pair(glyph_id),
{
    let p = GlyphPair::new(GlyphPair::codepoint(glyph_id), 1);
    (p.canonical, p.chiral)
}

/// The two ids of a pair differ and carry the same code point as the id they
/// were made from; the chiral id is variant 1, the canonical one variant 0.
pub proof fn lemma_pair_ids(glyph_id: u32)
    ensures
        spec_pair(glyph_id).0 != spec_pair(glyph_id).1,
        spec_pair(glyph_id).0 / 65536 == glyph_id / 65536,
        spec_pair(glyph_id).1 / 65536 == glyph_id / 65536,
        spec_pair(glyph_id).0 % 65536 == 0,
        spec_pair(glyph_id).1 % 65536 == 1,
{
    let cp = (glyph_id / 65536) as u16;
    lemma_glyph_pair_roundtrip(cp, 1);
}

/// The JSON record of an ambigram pair.
pub open spec fn spec_ambigram_pair_json(canonical: Seq<char>, chiral: Seq<char>, hash: Seq<char>, axis: ChiralAxis) -> Seq<char> {
    "{\"canonical\":"@ + json_quoted(canonical) + ",\"chiral\":"@ + json_quoted(chiral)
        + ",\"pair_hash\":\""@ + hash + "\",\"axis\":"@ + decimal(axis.spec_ordinal() as nat)
        + "}"@
}

/// Writes the JSON record of an ambigram pair: both SVGs as JSON strings,
/// their hash and the axis ordinal.
pub fn ambigram_pair_json(canonical: &str, chiral: &str, hash: &str, axis: ChiralAxis) -> (json: String)
    ensures
        json@ == spec_ambigram_pair_json(canonical@, chiral@, hash@, axis),
{
    let qc = crate::json::serde_json_escape(canonical);
    let qx = crate::json::serde_json_escape(chiral);
    let mut s = String::from_str("{\"canonical\":");
    s.append(qc.as_str());
    s.append(",\"chiral\":");
    s.append(qx.as_str());
    s.append(",\"pair_hash\":\"");
    s.append(hash);
    s.append("\",\"axis\":");
    append_decimal(&mut s, axis.ordinal() as u64);
    s.append("}");
    s
}

/// Ambigram records made with different axes always differ, whatever the
/// SVGs and hashes: the axis ordinal is the last digit before the brace.
pub proof fn lemma_ambigram_pair_json_axis(
    c1: Seq<char>,
    x1: Seq<char>,
    h1: Seq<char>,
    a1: ChiralAxis,
    c2: Seq<char>,
    x2: Seq<char>,
    h2: Seq<char>,
    a2: ChiralAxis,
)
    requires
        a1 != a2,
    ensures
        spec_ambigram_pair_json(c1, x1, h1, a1) != spec_ambigram_pair_json(c2, x2, h2, a2),
{
    reveal_strlit("}");
    let j1 = spec_ambigram_pair_json(c1, x1, h1, a1);
    let j2 = spec_ambigram_pair_json(c2, x2, h2, a2);
    assert(decimal(a1.spec_ordinal() as nat) == seq![digit_char(a1.spec_ordinal() as nat)]);
    assert(decimal(a2.spec_ordinal() as nat) == seq![digit_char(a2.spec_ordinal() as nat)]);
    assert(j1[j1.len() - 2] == digit_char(a1.spec_ordinal() as nat));
    assert(j2[j2.len() - 2] == digit_char(a2.spec_ordinal() as nat));
}

/// A one-character string.
fn char_string(ch: char) -> (s: String)
    ensures
        s@ == seq![ch],
{
    let mut s = String::new();
    push_char(&mut s, ch);
    s
}

/// The canonical rendering of a single character.
pub open spec fn spec_canonical(params: FontParams, ch: char) -> Seq<char> {
    params.spec_render_string(seq![ch])
}

/// The ambigram record of a character: its canonical rendering, the
/// rendering mirrored about `axis` (`tx`, `ty`: the doubled centre, two
/// decimals), the proof-of-render hash of the two, and the axis ordinal.
pub open spec fn spec_create_ambigram_pair(params: FontParams, axis: ChiralAxis, ch: char, tx: Seq<char>, ty: Seq<char>) -> Seq<char> {
    let canonical = spec_canonical(params, ch);
    let chiral = spec_apply_chirality(canonical, axis, tx, ty);
    spec_ambigram_pair_json(canonical, chiral, crate::digest::proof_hash(canonical, chiral), axis)
}

/// Renders a character and its chiral form and returns both with their
/// proof-of-render hash as JSON.
pub fn create_ambigram_pair(params: &FontParams, axis: ChiralAxis, ch: char, tx: &str, ty: &str) -> (json: String)
    ensures
        json@ == spec_create_ambigram_pair(*params, axis, ch, tx@, ty@),
        crate::digest::is_hex_digest(
            crate::digest::proof_hash(
                spec_canonical(*params, ch),
                spec_apply_chirality(spec_canonical(*params, ch), axis, tx@, ty@),
            ),
        ),
{
    let one = char_string(ch);
    let canonical_svg = params.render_string(one.as_str());
    let chiral_svg = apply_chirality(canonical_svg.as_str(), axis, tx, ty);
    let hash = crate::digest::proof_of_render_hash(canonical_svg.as_str(), chiral_svg.as_str());
    ambigram_pair_json(canonical_svg.as_str(), chiral_svg.as_str(), hash.as_str(), axis)
}

/// Two forms superimposed with the given opacities (written with three
/// decimals).
pub open spec fn spec_interpolate_svg(canonical: Seq<char>, chiral: Seq<char>, op_canonical: Seq<char>, op_chiral: Seq<char>) -> Seq<char> {
    "<g opacity='"@ + op_canonical + "'>"@ + canonical + "</g><g opacity='"@ + op_chiral + "'>"@
        + chiral + "</g>"@
}

/// Superimposes the canonical and chiral forms with the given opacities.
pub fn interpolate_svg(canonical: &str, chiral: &str, op_canonical: &str, op_chiral: &str) -> (svg: String)
    ensures
        svg@ == spec_interpolate_svg(canonical@, chiral@, op_canonical@, op_chiral@),
{
    let mut s = String::from_str("<g opacity='");
    s.append(op_canonical);
    s.append("'>");
    s.append(canonical);
    s.append("</g><g opacity='");
    s.append(op_chiral);
    s.append("'>");
    s.append(chiral);
    s.append("</g>");
    s
}

/// The morph frame of a character: its canonical and chiral forms
/// superimposed in one glyph cell.
pub open spec fn spec_morph(params: FontParams, axis: ChiralAxis, ch: char, tx: Seq<char>, ty: Seq<char>, op_canonical: Seq<char>, op_chiral: Seq<char>) -> Seq<char> {
    let canonical = spec_canonical(params, ch);
    let chiral = spec_apply_chirality(canonical, axis, tx, ty);
    "<svg width='160' height='180' viewBox='0 0 160 180' xmlns='http://www.w3.org/2000/svg'>"@
        + spec_interpolate_svg(canonical, chiral, op_canonical, op_chiral) + "</svg>"@
}

/// Draws the morph frame of a character with the given opacities of the
/// canonical and chiral forms.
pub fn morph(params: &FontParams, axis: ChiralAxis, ch: char, tx: &str, ty: &str, op_canonical: &str, op_chiral: &str) -> (svg: String)
    ensures
        svg@ == spec_morph(*params, axis, ch, tx@, ty@, op_canonical@, op_chiral@),
{
    let one = char_string(ch);
    let canonical_svg = params.render_string(one.as_str());
    let chiral_svg = apply_chirality(canonical_svg.as_str(), axis, tx, ty);
    let frame = interpolate_svg(canonical_svg.as_str(), chiral_svg.as_str(), op_canonical, op_chiral);
    let mut s = String::from_str(
        "<svg width='160' height='180' viewBox='0 0 160 180' xmlns='http://www.w3.org/2000/svg'>",
    );
    s.append(frame.as_str());
    s.append("</svg>");
    s
}

/// The canonical forms of the characters of `s`, one per 160-unit cell.
pub open spec fn spec_canonical_row(params: FontParams, s: Seq<char>) -> Seq<char>
    decreases s.len(),
{
    if s.len() == 0 {
        Seq::empty()
    } else {
        spec_canonical_row(params, s.drop_last()) + spec_translated(
            ((s.len() - 1) * 160) as nat,
            spec_canonical(params, s.last()),
        )
    }
}

/// The chiral forms of the characters of `s`, one per 160-unit cell.
pub open spec fn spec_chiral_row(params: FontParams, axis: ChiralAxis, tx: Seq<char>, ty: Seq<char>, s: Seq<char>) -> Seq<char>
    decreases s.len(),
{
    if s.len() == 0 {
        Seq::empty()
    } else {
        spec_chiral_row(params, axis, tx, ty, s.drop_last()) + spec_translated(
            ((s.len() - 1) * 160) as nat,
            spec_apply_chirality(spec_canonical(params, s.last()), axis, tx, ty),
        )
    }
}

/// The two cells of one character in an ambigram sheet, shifted right by
/// `offset`: its canonical form and its chiral form.
fn ambigram_cells(params: &FontParams, axis: ChiralAxis, ch: char, offset: usize, tx: &str, ty: &str) -> (cells: (String, String))
    ensures
        cells.0@ == spec_translated(offset as nat, spec_canonical(*params, ch)),
        cells.1@ == spec_translated(
            offset as nat,
            spec_apply_chirality(spec_canonical(*params, ch), axis, tx@, ty@),
        ),
{
    let one = char_string(ch);
    let glyph_svg = params.render_string(one.as_str());
    let chiral_svg = apply_chirality(glyph_svg.as_str(), axis, tx, ty);
    let mut top = String::from_str("<g transform='translate(");
    append_decimal(&mut top, offset as u64);
    top.append(",0)'>");
    top.append(glyph_svg.as_str());
    top.append("</g>");
    let mut bottom = String::from_str("<g transform='translate(");
    append_decimal(&mut bottom, offset as u64);
    bottom.append(",0)'>");
    bottom.append(chiral_svg.as_str());
    bottom.append("</g>");
    (top, bottom)
}

/// The ambigram sheet of `s`: canonical forms on top, chiral forms below,
/// separated by a hairline.
pub open spec fn spec_render_ambigram_string(params: FontParams, axis: ChiralAxis, s: Seq<char>, tx: Seq<char>, ty: Seq<char>) -> Seq<char> {
    let w = decimal(canvas_width(s.len()));
    "<svg width='"@ + w + "' height='380' viewBox='0 0 "@ + w
        + " 380' xmlns='http://www.w3.org/2000/svg'><g transform='translate(0,0)'>"@
        + spec_canonical_row(params, s)
        + "</g><line x1='0' y1='188' x2='"@ + w
        + "' y2='188' stroke='rgba(255,255,255,0.15)' stroke-width='1'/><g transform='translate(0,200)'>"@
        + spec_chiral_row(params, axis, tx, ty, s) + "</g></svg>"@
}

/// Renders the ambigram sheet of `chars`: each character in canonical form
/// on the top row and mirrored about `axis` (`tx`, `ty`: the doubled glyph
/// centre, two decimals) on the bottom row.
pub fn render_ambigram_string(params: &FontParams, axis: ChiralAxis, chars: &str, tx: &str, ty: &str) -> (svg: String)
    requires
        chars@.len() <= usize::MAX / 160,
    ensures
        svg@ == spec_render_ambigram_string(*params, axis, chars@, tx@, ty@),
{
    let n = chars.unicode_len();
    let cells = if n == 0 { 1 } else { n };
    let w = cells * 160;
    let mut canonical_row = String::new();
    let mut chiral_row = String::new();
    let ghost text = chars@;
    let mut i: usize = 0;
    for ch in it: chars.chars()
        invariant
            it.seq() == text,
            text == chars@,
            text.len() <= usize::MAX / 160,
            i == it.index(),
            canonical_row@ == spec_canonical_row(*params, text.take(i as int)),
            chiral_row@ == spec_chiral_row(*params, axis, tx@, ty@, text.take(i as int)),
    {
        assert(text.take(i + 1).drop_last() == text.take(i as int));
        assert(ch == text[i as int]);
        let (top, bottom) = ambigram_cells(params, axis, ch, i * 160, tx, ty);
        canonical_row.append(top.as_str());
        chiral_row.append(bottom.as_str());
        i = i + 1;
    }
    assert(text.take(text.len() as int) == text);
    let mut s = String::from_str("<svg width='");
    append_decimal(&mut s, w as u64);
    s.append("' height='380' viewBox='0 0 ");
    append_decimal(&mut s, w as u64);
    s.append(" 380' xmlns='http://www.w3.org/2000/svg'><g transform='translate(0,0)'>");
    s.append(canonical_row.as_str());
    s.append("</g><line x1='0' y1='188' x2='");
    append_decimal(&mut s, w as u64);
    s.append("' y2='188' stroke='rgba(255,255,255,0.15)' stroke-width='1'/><g transform='translate(0,200)'>");
    s.append(chiral_row.as_str());
    s.append("</g></svg>");
    s
}

/// The ambigram record of a character holds, under `canonical`, its rendering
/// as a JSON string; under `chiral`, that rendering mirrored about the axis; under
/// `pair_hash`, the hash of the canonical rendering followed by the mirrored one
/// (so the hash covers both forms); and under `axis`, the axis ordinal.
#[verifier::spinoff_prover]
#[verifier::rlimit(100)]
pub proof fn lemma_ambigram_pair_fields(params: FontParams, axis: ChiralAxis, ch: char, tx: Seq<char>, ty: Seq<char>)
    ensures
        contains_text(spec_create_ambigram_pair(params, axis, ch, tx, ty), "{\"canonical\":"@ + json_quoted(params.spec_render_string(seq![ch])) + ","@),
        contains_text(spec_create_ambigram_pair(params, axis, ch, tx, ty), "\"chiral\":"@ + json_quoted(spec_apply_chirality(params.spec_render_string(seq![ch]), axis, tx, ty)) + ","@),
        contains_text(spec_create_ambigram_pair(params, axis, ch, tx, ty), "\"pair_hash\":\""@ + crate::digest::proof_hash(params.spec_render_string(seq![ch]), spec_apply_chirality(params.spec_render_string(seq![ch]), axis, tx, ty)) + "\""@),
        contains_text(spec_create_ambigram_pair(params, axis, ch, tx, ty), "\"axis\":"@ + decimal(axis.spec_ordinal() as nat) + "}"@),
{
    assert(contains_text(spec_create_ambigram_pair(params, axis, ch, tx, ty), "{\"canonical\":"@ + json_quoted(params.spec_render_string(seq![ch])) + ","@)) by {
        reveal_strlit("{\"canonical\":");
        reveal_strlit(",\"chiral\":");
        reveal_strlit(",");
        reveal_strlit("\"chiral\":");
        assert(",\"chiral\":"@ =~= ","@ + "\"chiral\":"@);
        let g = spec_create_ambigram_pair(params, axis, ch, tx, ty);
        assert(g =~= Seq::<char>::empty() + "{\"canonical\":"@ + json_quoted(params.spec_render_string(seq![ch])) + ",\"chiral\":"@ + json_quoted(spec_apply_chirality(params.spec_render_string(seq![ch]), axis, tx, ty)) + ",\"pair_hash\":\""@ + crate::digest::proof_hash(params.spec_render_string(seq![ch]), spec_apply_chirality(params.spec_render_string(seq![ch]), axis, tx, ty)) + "\",\"axis\":"@ + decimal(axis.spec_ordinal() as nat) + "}"@);
        assert(g =~= (Seq::<char>::empty()) + ("{\"canonical\":"@ + json_quoted(params.spec_render_string(seq![ch])) + ","@) + ("\"chiral\":"@ + json_quoted(spec_apply_chirality(params.spec_render_string(seq![ch]), axis, tx, ty)) + ",\"pair_hash\":\""@ + crate::digest::proof_hash(params.spec_render_string(seq![ch]), spec_apply_chirality(params.spec_render_string(seq![ch]), axis, tx, ty)) + "\",\"axis\":"@ + decimal(axis.spec_ordinal() as nat) + "}"@));
        lemma_infix((Seq::<char>::empty()), "{\"canonical\":"@ + json_quoted(params.spec_render_string(seq![ch])) + ","@, "\"chiral\":"@ + json_quoted(spec_apply_chirality(params.spec_render_string(seq![ch]), axis, tx, ty)) + ",\"pair_hash\":\""@ + crate::digest::proof_hash(params.spec_render_string(seq![ch]), spec_apply_chirality(params.spec_render_string(seq![ch]), axis, tx, ty)) + "\",\"axis\":"@ + decimal(axis.spec_ordinal() as nat) + "}"@);
    }
    assert(contains_text(spec_create_ambigram_pair(params, axis, ch, tx, ty), "\"chiral\":"@ + json_quoted(spec_apply_chirality(params.spec_render_string(seq![ch]), axis, tx, ty)) + ","@)) by {
        reveal_strlit(",\"chiral\":");
        reveal_strlit("\"chiral\":");
        reveal_strlit(",\"pair_hash\":\"");
        reveal_strlit(",");
        reveal_strlit("\"pair_hash\":\"");
        assert(",\"chiral\":"@ =~= ","@ + "\"chiral\":"@);
        assert(",\"pair_hash\":\""@ =~= ","@ + "\"pair_hash\":\""@);
        let g = spec_create_ambigram_pair(params, axis, ch, tx, ty);
        assert(g =~= "{\"canonical\":"@ + json_quoted(params.spec_render_string(seq![ch])) + ",\"chiral\":"@ + json_quoted(spec_apply_chirality(params.spec_render_string(seq![ch]), axis, tx, ty)) + ",\"pair_hash\":\""@ + crate::digest::proof_hash(params.spec_render_string(seq![ch]), spec_apply_chirality(params.spec_render_string(seq![ch]), axis, tx, ty)) + "\",\"axis\":"@ + decimal(axis.spec_ordinal() as nat) + "}"@);
        assert(g =~= ("{\"canonical\":"@ + json_quoted(params.spec_render_string(seq![ch])) + ","@) + ("\"chiral\":"@ + json_quoted(spec_apply_chirality(params.spec_render_string(seq![ch]), axis, tx, ty)) + ","@) + ("\"pair_hash\":\""@ + crate::digest::proof_hash(params.spec_render_string(seq![ch]), spec_apply_chirality(params.spec_render_string(seq![ch]), axis, tx, ty)) + "\",\"axis\":"@ + decimal(axis.spec_ordinal() as nat) + "}"@));
        lemma_infix(("{\"canonical\":"@ + json_quoted(params.spec_render_string(seq![ch])) + ","@), "\"chiral\":"@ + json_quoted(spec_apply_chirality(params.spec_render_string(seq![ch]), axis, tx, ty)) + ","@, "\"pair_hash\":\""@ + crate::digest::proof_hash(params.spec_render_string(seq![ch]), spec_apply_chirality(params.spec_render_string(seq![ch]), axis, tx, ty)) + "\",\"axis\":"@ + decimal(axis.spec_ordinal() as nat) + "}"@);
    }
    assert(contains_text(spec_create_ambigram_pair(params, axis, ch, tx, ty), "\"pair_hash\":\""@ + crate::digest::proof_hash(params.spec_render_string(seq![ch]), spec_apply_chirality(params.spec_render_string(seq![ch]), axis, tx, ty)) + "\""@)) by {
        reveal_strlit(",\"pair_hash\":\"");
        reveal_strlit("\"pair_hash\":\"");
        reveal_strlit("\",\"axis\":");
        reveal_strlit("\"");
        reveal_strlit(",");
        reveal_strlit(",\"axis\":");
        assert(",\"pair_hash\":\""@ =~= ","@ + "\"pair_hash\":\""@);
        assert("\",\"axis\":"@ =~= "\""@ + ",\"axis\":"@);
        let g = spec_create_ambigram_pair(params, axis, ch, tx, ty);
        assert(g =~= "{\"canonical\":"@ + json_quoted(params.spec_render_string(seq![ch])) + ",\"chiral\":"@ + json_quoted(spec_apply_chirality(params.spec_render_string(seq![ch]), axis, tx, ty)) + ",\"pair_hash\":\""@ + crate::digest::proof_hash(params.spec_render_string(seq![ch]), spec_apply_chirality(params.spec_render_string(seq![ch]), axis, tx, ty)) + "\",\"axis\":"@ + decimal(axis.spec_ordinal() as nat) + "}"@);
        assert(g =~= ("{\"canonical\":"@ + json_quoted(params.spec_render_string(seq![ch])) + ",\"chiral\":"@ + json_quoted(spec_apply_chirality(params.spec_render_string(seq![ch]), axis, tx, ty)) + ","@) + ("\"pair_hash\":\""@ + crate::digest::proof_hash(params.spec_render_string(seq![ch]), spec_apply_chirality(params.spec_render_string(seq![ch]), axis, tx, ty)) + "\""@) + (",\"axis\":"@ + decimal(axis.spec_ordinal() as nat) + "}"@));
        lemma_infix(("{\"canonical\":"@ + json_quoted(params.spec_render_string(seq![ch])) + ",\"chiral\":"@ + json_quoted(spec_apply_chirality(params.spec_render_string(seq![ch]), axis, tx, ty)) + ","@), "\"pair_hash\":\""@ + crate::digest::proof_hash(params.spec_render_string(seq![ch]), spec_apply_chirality(params.spec_render_string(seq![ch]), axis, tx, ty)) + "\""@, ",\"axis\":"@ + decimal(axis.spec_ordinal() as nat) + "}"@);
    }
    assert(contains_text(spec_create_ambigram_pair(params, axis, ch, tx, ty), "\"axis\":"@ + decimal(axis.spec_ordinal() as nat) + "}"@)) by {
        reveal_strlit("\",\"axis\":");
        reveal_strlit("\"axis\":");
        reveal_strlit("}");
        reveal_strlit("\",");
        assert("\",\"axis\":"@ =~= "\","@ + "\"axis\":"@);
        let g = spec_create_ambigram_pair(params, axis, ch, tx, ty);
        assert(g =~= "{\"canonical\":"@ + json_quoted(params.spec_render_string(seq![ch])) + ",\"chiral\":"@ + json_quoted(spec_apply_chirality(params.spec_render_string(seq![ch]), axis, tx, ty)) + ",\"pair_hash\":\""@ + crate::digest::proof_hash(params.spec_render_string(seq![ch]), spec_apply_chirality(params.spec_render_string(seq![ch]), axis, tx, ty)) + "\",\"axis\":"@ + decimal(axis.spec_ordinal() as nat) + "}"@);
        assert(g =~= ("{\"canonical\":"@ + json_quoted(params.spec_render_string(seq![ch])) + ",\"chiral\":"@ + json_quoted(spec_apply_chirality(params.spec_render_string(seq![ch]), axis, tx, ty)) + ",\"pair_hash\":\""@ + crate::digest::proof_hash(params.spec_render_string(seq![ch]), spec_apply_chirality(params.spec_render_string(seq![ch]), axis, tx, ty)) + "\","@) + ("\"axis\":"@ + decimal(axis.spec_ordinal() as nat) + "}"@) + (Seq::<char>::empty()));
        lemma_infix(("{\"canonical\":"@ + json_quoted(params.spec_render_string(seq![ch])) + ",\"chiral\":"@ + json_quoted(spec_apply_chirality(params.spec_render_string(seq![ch]), axis, tx, ty)) + ",\"pair_hash\":\""@ + crate::digest::proof_hash(params.spec_render_string(seq![ch]), spec_apply_chirality(params.spec_render_string(seq![ch]), axis, tx, ty)) + "\","@), "\"axis\":"@ + decimal(axis.spec_ordinal() as nat) + "}"@, Seq::<char>::empty());
    }
}

/// The ambigram sheet puts the canonical row in the top group (at
/// `translate(0,0)`), then the hairline across the full width, then the mirrored
/// row in the bottom group (at `translate(0,200)`), which closes the document.
#[verifier::spinoff_prover]
#[verifier::rlimit(100)]
pub proof fn lemma_ambigram_sheet_groups(params: FontParams, axis: ChiralAxis, s: Seq<char>, tx: Seq<char>, ty: Seq<char>)
    ensures
        contains_text(spec_render_ambigram_string(params, axis, s, tx, ty), "<g transform='translate(0,0)'>"@ + spec_canonical_row(params, s) + "</g><line"@),
        contains_text(spec_render_ambigram_string(params, axis, s, tx, ty), "<line x1='0' y1='188' x2='"@ + decimal(canvas_width(s.len())) + "' y2='188' stroke='rgba(255,255,255,0.15)' stroke-width='1'/>"@),
        contains_text(spec_render_ambigram_string(params, axis, s, tx, ty), "<g transform='translate(0,200)'>"@ + spec_chiral_row(params, axis, tx, ty, s) + "</g></svg>"@),
{
    assert(contains_text(spec_render_ambigram_string(params, axis, s, tx, ty), "<g transform='translate(0,0)'>"@ + spec_canonical_row(params, s) + "</g><line"@)) by {
        reveal_strlit(" 380' xmlns='http://www.w3.org/2000/svg'><g transform='translate(0,0)'>");
        reveal_strlit("<g transform='translate(0,0)'>");
        reveal_strlit("</g><line x1='0' y1='188' x2='");
        reveal_strlit("</g><line");
        reveal_strlit(" 380' xmlns='http://www.w3.org/2000/svg'>");
        reveal_strlit(" x1='0' y1='188' x2='");
        assert(" 380' xmlns='http://www.w3.org/2000/svg'><g transform='translate(0,0)'>"@ =~= " 380' xmlns='http://www.w3.org/2000/svg'>"@ + "<g transform='translate(0,0)'>"@);
        assert("</g><line x1='0' y1='188' x2='"@ =~= "</g><line"@ + " x1='0' y1='188' x2='"@);
        let g = spec_render_ambigram_string(params, axis, s, tx, ty);
        assert(g =~= "<svg width='"@ + decimal(canvas_width(s.len())) + "' height='380' viewBox='0 0 "@ + decimal(canvas_width(s.len())) + " 380' xmlns='http://www.w3.org/2000/svg'><g transform='translate(0,0)'>"@ + spec_canonical_row(params, s) + "</g><line x1='0' y1='188' x2='"@ + decimal(canvas_width(s.len())) + "' y2='188' stroke='rgba(255,255,255,0.15)' stroke-width='1'/><g transform='translate(0,200)'>"@ + spec_chiral_row(params, axis, tx, ty, s) + "</g></svg>"@);
        assert(g =~= ("<svg width='"@ + decimal(canvas_width(s.len())) + "' height='380' viewBox='0 0 "@ + decimal(canvas_width(s.len())) + " 380' xmlns='http://www.w3.org/2000/svg'>"@) + ("<g transform='translate(0,0)'>"@ + spec_canonical_row(params, s) + "</g><line"@) + (" x1='0' y1='188' x2='"@ + decimal(canvas_width(s.len())) + "' y2='188' stroke='rgba(255,255,255,0.15)' stroke-width='1'/><g transform='translate(0,200)'>"@ + spec_chiral_row(params, axis, tx, ty, s) + "</g></svg>"@));
        lemma_infix(("<svg width='"@ + decimal(canvas_width(s.len())) + "' height='380' viewBox='0 0 "@ + decimal(canvas_width(s.len())) + " 380' xmlns='http://www.w3.org/2000/svg'>"@), "<g transform='translate(0,0)'>"@ + spec_canonical_row(params, s) + "</g><line"@, " x1='0' y1='188' x2='"@ + decimal(canvas_width(s.len())) + "' y2='188' stroke='rgba(255,255,255,0.15)' stroke-width='1'/><g transform='translate(0,200)'>"@ + spec_chiral_row(params, axis, tx, ty, s) + "</g></svg>"@);
    }
    assert(contains_text(spec_render_ambigram_string(params, axis, s, tx, ty), "<line x1='0' y1='188' x2='"@ + decimal(canvas_width(s.len())) + "' y2='188' stroke='rgba(255,255,255,0.15)' stroke-width='1'/>"@)) by {
        reveal_strlit("</g><line x1='0' y1='188' x2='");
        reveal_strlit("<line x1='0' y1='188' x2='");
        reveal_strlit("' y2='188' stroke='rgba(255,255,255,0.15)' stroke-width='1'/><g transform='translate(0,200)'>");
        reveal_strlit("' y2='188' stroke='rgba(255,255,255,0.15)' stroke-width='1'/>");
        reveal_strlit("</g>");
        reveal_strlit("<g transform='translate(0,200)'>");
        assert("</g><line x1='0' y1='188' x2='"@ =~= "</g>"@ + "<line x1='0' y1='188' x2='"@);
        assert("' y2='188' stroke='rgba(255,255,255,0.15)' stroke-width='1'/><g transform='translate(0,200)'>"@ =~= "' y2='188' stroke='rgba(255,255,255,0.15)' stroke-width='1'/>"@ + "<g transform='translate(0,200)'>"@);
        let g = spec_render_ambigram_string(params, axis, s, tx, ty);
        assert(g =~= "<svg width='"@ + decimal(canvas_width(s.len())) + "' height='380' viewBox='0 0 "@ + decimal(canvas_width(s.len())) + " 380' xmlns='http://www.w3.org/2000/svg'><g transform='translate(0,0)'>"@ + spec_canonical_row(params, s) + "</g><line x1='0' y1='188' x2='"@ + decimal(canvas_width(s.len())) + "' y2='188' stroke='rgba(255,255,255,0.15)' stroke-width='1'/><g transform='translate(0,200)'>"@ + spec_chiral_row(params, axis, tx, ty, s) + "</g></svg>"@);
        assert(g =~= ("<svg width='"@ + decimal(canvas_width(s.len())) + "' height='380' viewBox='0 0 "@ + decimal(canvas_width(s.len())) + " 380' xmlns='http://www.w3.org/2000/svg'><g transform='translate(0,0)'>"@ + spec_canonical_row(params, s) + "</g>"@) + ("<line x1='0' y1='188' x2='"@ + decimal(canvas_width(s.len())) + "' y2='188' stroke='rgba(255,255,255,0.15)' stroke-width='1'/>"@) + ("<g transform='translate(0,200)'>"@ + spec_chiral_row(params, axis, tx, ty, s) + "</g></svg>"@));
        lemma_infix(("<svg width='"@ + decimal(canvas_width(s.len())) + "' height='380' viewBox='0 0 "@ + decimal(canvas_width(s.len())) + " 380' xmlns='http://www.w3.org/2000/svg'><g transform='translate(0,0)'>"@ + spec_canonical_row(params, s) + "</g>"@), "<line x1='0' y1='188' x2='"@ + decimal(canvas_width(s.len())) + "' y2='188' stroke='rgba(255,255,255,0.15)' stroke-width='1'/>"@, "<g transform='translate(0,200)'>"@ + spec_chiral_row(params, axis, tx, ty, s) + "</g></svg>"@);
    }
    assert(contains_text(spec_render_ambigram_string(params, axis, s, tx, ty), "<g transform='translate(0,200)'>"@ + spec_chiral_row(params, axis, tx, ty, s) + "</g></svg>"@)) by {
        reveal_strlit("' y2='188' stroke='rgba(255,255,255,0.15)' stroke-width='1'/><g transform='translate(0,200)'>");
        reveal_strlit("<g transform='translate(0,200)'>");
        reveal_strlit("</g></svg>");
        reveal_strlit("' y2='188' stroke='rgba(255,255,255,0.15)' stroke-width='1'/>");
        assert("' y2='188' stroke='rgba(255,255,255,0.15)' stroke-width='1'/><g transform='translate(0,200)'>"@ =~= "' y2='188' stroke='rgba(255,255,255,0.15)' stroke-width='1'/>"@ + "<g transform='translate(0,200)'>"@);
        let g = spec_render_ambigram_string(params, axis, s, tx, ty);
        assert(g =~= "<svg width='"@ + decimal(canvas_width(s.len())) + "' height='380' viewBox='0 0 "@ + decimal(canvas_width(s.len())) + " 380' xmlns='http://www.w3.org/2000/svg'><g transform='translate(0,0)'>"@ + spec_canonical_row(params, s) + "</g><line x1='0' y1='188' x2='"@ + decimal(canvas_width(s.len())) + "' y2='188' stroke='rgba(255,255,255,0.15)' stroke-width='1'/><g transform='translate(0,200)'>"@ + spec_chiral_row(params, axis, tx, ty, s) + "</g></svg>"@);
        assert(g =~= ("<svg width='"@ + decimal(canvas_width(s.len())) + "' height='380' viewBox='0 0 "@ + decimal(canvas_width(s.len())) + " 380' xmlns='http://www.w3.org/2000/svg'><g transform='translate(0,0)'>"@ + spec_canonical_row(params, s) + "</g><line x1='0' y1='188' x2='"@ + decimal(canvas_width(s.len())) + "' y2='188' stroke='rgba(255,255,255,0.15)' stroke-width='1'/>"@) + ("<g transform='translate(0,200)'>"@ + spec_chiral_row(params, axis, tx, ty, s) + "</g></svg>"@) + (Seq::<char>::empty()));
        lemma_infix(("<svg width='"@ + decimal(canvas_width(s.len())) + "' height='380' viewBox='0 0 "@ + decimal(canvas_width(s.len())) + " 380' xmlns='http://www.w3.org/2000/svg'><g transform='translate(0,0)'>"@ + spec_canonical_row(params, s) + "</g><line x1='0' y1='188' x2='"@ + decimal(canvas_width(s.len())) + "' y2='188' stroke='rgba(255,255,255,0.15)' stroke-width='1'/>"@), "<g transform='translate(0,200)'>"@ + spec_chiral_row(params, axis, tx, ty, s) + "</g></svg>"@, Seq::<char>::empty());
    }
}

/// Every character of a text appears in the canonical row of its ambigram
/// sheet, rendered on its own and shifted right by 160 units per position;
/// in the mirrored row the same rendering appears mirrored about the axis at
/// the same offset.
pub proof fn lemma_ambigram_row_cells(params: FontParams, axis: ChiralAxis, s: Seq<char>, tx: Seq<char>, ty: Seq<char>, i: int)
    requires
        0 <= i < s.len(),
    ensures
        contains_text(
            spec_canonical_row(params, s),
            "<g transform='translate("@ + decimal((i * 160) as nat) + ",0)'>"@
                + params.spec_render_string(seq![s[i]]) + "</g>"@,
        ),
        contains_text(
            spec_chiral_row(params, axis, tx, ty, s),
            "<g transform='translate("@ + decimal((i * 160) as nat) + ",0)'>"@
                + spec_apply_chirality(params.spec_render_string(seq![s[i]]), axis, tx, ty) + "</g>"@,
        ),
    decreases s.len(),
{
    let open_g = "<g transform='translate("@ + decimal((i * 160) as nat) + ",0)'>"@;
    let c = params.spec_render_string(seq![s[i]]);
    let x = spec_apply_chirality(c, axis, tx, ty);
    let cn = open_g + c + "</g>"@;
    let xn = open_g + x + "</g>"@;
    let top = spec_canonical_row(params, s);
    let bottom = spec_chiral_row(params, axis, tx, ty, s);
    let top_front = spec_canonical_row(params, s.drop_last());
    let bottom_front = spec_chiral_row(params, axis, tx, ty, s.drop_last());
    if i == s.len() - 1 {
        assert(top == top_front + cn);
        assert(bottom == bottom_front + xn);
        lemma_infix(top_front, cn, Seq::<char>::empty());
        lemma_infix(bottom_front, xn, Seq::<char>::empty());
        assert(top_front + cn + Seq::<char>::empty() == top);
        assert(bottom_front + xn + Seq::<char>::empty() == bottom);
    } else {
        lemma_ambigram_row_cells(params, axis, s.drop_last(), tx, ty, i);
        assert(s.drop_last()[i] == s[i]);
        let last_c = spec_translated(((s.len() - 1) * 160) as nat, spec_canonical(params, s.last()));
        let last_x = spec_translated(
            ((s.len() - 1) * 160) as nat,
            spec_apply_chirality(spec_canonical(params, s.last()), axis, tx, ty),
        );
        assert(top == top_front + last_c);
        assert(bottom == bottom_front + last_x);
        let j = choose|j: int| #[trigger] occurs_at(top_front, cn, j);
        assert(occurs_at(top_front, cn, j));
        assert(top.subrange(j, j + cn.len()) =~= top_front.subrange(j, j + cn.len()));
        assert(occurs_at(top, cn, j));
        let k = choose|k: int| #[trigger] occurs_at(bottom_front, xn, k);
        assert(occurs_at(bottom_front, xn, k));
        assert(bottom.subrange(k, k + xn.len()) =~= bottom_front.subrange(k, k + xn.len()));
        assert(occurs_at(bottom, xn, k));
    }
}

/// Interpolation overlays two groups in order: first the canonical form at
/// the canonical opacity, then the chiral form at the chiral opacity.
pub proof fn lemma_interpolate_groups(canonical: Seq<char>, chiral: Seq<char>, op_canonical: Seq<char>, op_chiral: Seq<char>)
    ensures
        spec_interpolate_svg(canonical, chiral, op_canonical, op_chiral) == ("<g opacity='"@ + op_canonical
            + "'>"@ + canonical + "</g>"@) + ("<g opacity='"@ + op_chiral + "'>"@ + chiral + "</g>"@),
{
    reveal_strlit("</g><g opacity='");
    reveal_strlit("</g>");
    reveal_strlit("<g opacity='");
    assert("</g><g opacity='"@ =~= "</g>"@ + "<g opacity='"@);
    assert(spec_interpolate_svg(canonical, chiral, op_canonical, op_chiral) =~= ("<g opacity='"@
        + op_canonical + "'>"@ + canonical + "</g>"@) + ("<g opacity='"@ + op_chiral + "'>"@ + chiral
        + "</g>"@));
}

/// The morph frame of a character is one glyph cell holding, in order, the
/// character's rendering at the canonical opacity and that rendering mirrored
/// about the axis at the chiral opacity: at canonical opacity 1 and chiral
/// opacity 0 the canonical form is the one shown.
pub proof fn lemma_morph_frame(params: FontParams, axis: ChiralAxis, ch: char, tx: Seq<char>, ty: Seq<char>, op_canonical: Seq<char>, op_chiral: Seq<char>)
    ensures
        spec_morph(params, axis, ch, tx, ty, op_canonical, op_chiral)
            == "<svg width='160' height='180' viewBox='0 0 160 180' xmlns='http://www.w3.org/2000/svg'>"@
            + ("<g opacity='"@ + op_canonical + "'>"@ + params.spec_render_string(seq![ch]) + "</g>"@)
            + ("<g opacity='"@ + op_chiral + "'>"@ + spec_apply_chirality(params.spec_render_string(seq![ch]), axis, tx, ty) + "</g>"@)
            + "</svg>"@,
{
    let c = params.spec_render_string(seq![ch]);
    let x = spec_apply_chirality(c, axis, tx, ty);
    lemma_interpolate_groups(c, x, op_canonical, op_chiral);
    assert(spec_morph(params, axis, ch, tx, ty, op_canonical, op_chiral) =~= "<svg width='160' height='180' viewBox='0 0 160 180' xmlns='http://www.w3.org/2000/svg'>"@
        + ("<g opacity='"@ + op_canonical + "'>"@ + c + "</g>"@)
        + ("<g opacity='"@ + op_chiral + "'>"@ + x + "</g>"@) + "</svg>"@);
}

} // verus!
