use vstd::prelude::*;
use vstd::string::{StringExecFns, StrSliceExecFns};
use vstd::utf8::encode_utf8;
use crate::text::{decimal, append_decimal, push_char, occurs_at, contains_text, lemma_infix};
use crate::glyph::{GlyphKind, FREE_TIER_BUDGET, GRID_SNAP};

verus! {

/// The license-key prefix that unlocks premium rendering.
pub open spec fn premium_prefix() -> Seq<char> {
    seq!['G', 'E', 'N', '-', 'B', 'E', '-']
}

/// A key is premium when it starts with `GEN-BE-` and is at least 14 bytes
/// long in UTF-8.
pub open spec fn is_premium_key(key: Seq<char>) -> bool {
    &&& key.len() >= 7
    &&& key.take(7) == premium_prefix()
    &&& encode_utf8(key).len() >= 14
}

/// Decides whether a license key unlocks premium rendering.
pub fn is_premium_license_key(key: &str) -> (premium: bool)
    ensures
        premium == is_premium_key(key@),
{
    let n = key.unicode_len();
    if n < 7 {
        return false;
    }
    let prefix_ok = key.get_char(0) == 'G' && key.get_char(1) == 'E' && key.get_char(2) == 'N'
        && key.get_char(3) == '-' && key.get_char(4) == 'B' && key.get_char(5) == 'E'
        && key.get_char(6) == '-';
    assert(prefix_ok <==> key@.take(7) == premium_prefix()) by {
        if prefix_ok {
            assert(key@.take(7) =~= premium_prefix());
        }
        if key@.take(7) == premium_prefix() {
            assert(key@.take(7)[0] == key@[0]);
            assert(key@.take(7)[1] == key@[1]);
            assert(key@.take(7)[2] == key@[2]);
            assert(key@.take(7)[3] == key@[3]);
            assert(key@.take(7)[4] == key@[4]);
            assert(key@.take(7)[5] == key@[5]);
            assert(key@.take(7)[6] == key@[6]);
        }
    }
    let byte_len = key.as_bytes().len();
    prefix_ok && byte_len >= 14
}

/// Rounds `v / 4` half away from zero and scales back: the nearest grid line.
pub open spec fn grid_snap(v: int) -> int {
    let g = GRID_SNAP as int;
    if v >= 0 {
        g * ((v + 2) / g)
    } else {
        -(g * ((-v + 2) / g))
    }
}

/// Snaps an integer coordinate to the nearest line of the 4-unit grid, ties
/// away from zero.
pub fn snap(v: i32) -> (s: i64)
    ensures
        s == grid_snap(v as int),
        s % 4 == 0,
        -2 <= s - v <= 2,
        v % 4 != 2 ==> -2 < s - v < 2,
        v >= 0 && v % 4 == 2 ==> s == v + 2,
        v < 0 && v % 4 == 2 ==> s == v - 2,
{
    let w = v as i64;
    if w >= 0 {
        GRID_SNAP * ((w + 2) / GRID_SNAP)
    } else {
        -(GRID_SNAP * ((-w + 2) / GRID_SNAP))
    }
}

/// The state of a font architect with every measurement already written out
/// as decimal text, as the renderer prints it.
pub struct FontParams {
    /// Whether the license key unlocks premium rendering.
    pub is_premium: bool,
    /// Stem stroke width, one decimal place.
    pub stem: String,
    /// Serif stroke width, two decimal places (glyph strokes).
    pub serif: String,
    /// Serif stroke width, three decimal places (parameter export).
    pub serif_fine: String,
    /// Stem-to-serif contrast ratio, one decimal place.
    pub contrast_ratio: String,
    /// Letter spacing in em, two decimal places.
    pub tracking_em: String,
    /// Shear angle in degrees, two decimal places.
    pub shear_deg: String,
    /// Whether the shear is large enough to be drawn as a skew.
    pub shear_visible: bool,
    /// Stem weight multiplier, two decimal places.
    pub weight_multiplier: String,
}

impl FontParams {
    /// Whether a glyph of complexity `c` may be rendered under this license.
    pub open spec fn spec_qos_allows(self, c: u32) -> bool {
        self.is_premium || c < FREE_TIER_BUDGET
    }

    /// Premium licenses render everything; free licenses only glyphs whose
    /// complexity is below the free-tier budget.
    pub fn check_qos_budget(&self, c: u32) -> (allowed: bool)
        ensures
            allowed == self.spec_qos_allows(c),
    {
        self.is_premium || c < FREE_TIER_BUDGET
    }

    /// The skew attribute of a glyph group: empty when the shear is not drawn.
    pub open spec fn spec_shear_transform(self) -> Seq<char> {
        if self.shear_visible {
            " transform='skewX("@ + self.shear_deg@ + ")'"@
        } else {
            Seq::empty()
        }
    }

    /// The skew attribute of a glyph group.
    pub fn shear_transform(&self) -> (attr: String)
        ensures
            attr@ == self.spec_shear_transform(),
    {
        if self.shear_visible {
            let mut s = String::from_str(" transform='skewX(");
            s.append(self.shear_deg.as_str());
            s.append(")'");
            s
        } else {
            String::new()
        }
    }
}

/// The placeholder drawn instead of a glyph that the license does not cover.
pub open spec fn spec_free_tier_stub(ch: char) -> Seq<char> {
    "<text x='0' y='100' font-size='12' fill='rgba(255,100,100,0.7)' font-family='monospace'>QoS:"@
        + seq![ch] + " requires GEN-BE-* license</text>"@
}

/// The placeholder drawn instead of a glyph that the license does not cover.
pub fn free_tier_stub(ch: char) -> (svg: String)
    ensures
        svg@ == spec_free_tier_stub(ch),
{
    let mut s = String::from_str(
        "<text x='0' y='100' font-size='12' fill='rgba(255,100,100,0.7)' font-family='monospace'>QoS:",
    );
    push_char(&mut s, ch);
    s.append(" requires GEN-BE-* license</text>");
    s
}

/// The apex of the `A`, snapped to the grid.
pub open spec fn apex_a() -> int {
    grid_snap(75)
}

impl FontParams {
    /// The outline of `A`.
    pub open spec fn spec_glyph_a(self) -> Seq<char> {
        "<g class='be-A'"@ + self.spec_shear_transform() + "><path d='M40 150 L"@
            + decimal(apex_a() as nat)
            + " 30 L110 150' stroke='currentColor' stroke-width='"@ + self.stem@
            + "' fill='none' stroke-linecap='square'/><path d='M55 110 L95 110 M30 150 L120 150 M"@
            + decimal((apex_a() - 6) as nat) + " 30 L"@ + decimal((apex_a() + 6) as nat)
            + " 30' stroke='currentColor' stroke-width='"@ + self.serif@
            + "' fill='none'/></g>"@
    }

    /// The outline of `B`.
    pub open spec fn spec_glyph_b(self) -> Seq<char> {
        "<g class='be-B'"@ + self.spec_shear_transform()
            + "><path d='M200 30 L200 150' stroke='currentColor' stroke-width='"@ + self.stem@
            + "' fill='none' stroke-linecap='square'/><path d='M200 30 Q258 30 258 65 Q258 100 200 100' stroke='currentColor' stroke-width='"@
            + self.serif@
            + "' fill='none'/><path d='M200 100 Q268 100 268 125 Q268 150 200 150' stroke='currentColor' stroke-width='"@
            + self.serif@
            + "' fill='none'/><path d='M195 30 L205 30 M195 150 L205 150' stroke='currentColor' stroke-width='"@
            + self.serif@ + "' fill='none'/></g>"@
    }

    /// The outline of `C`.
    pub open spec fn spec_glyph_c(self) -> Seq<char> {
        "<g class='be-C'"@ + self.spec_shear_transform()
            + "><path d='M400 70 Q394 30 355 30 Q308 30 308 90 Q308 150 355 150 Q394 150 400 115' stroke='currentColor' stroke-width='"@
            + self.serif@
            + "' fill='none'/><path d='M308 58 L308 122' stroke='currentColor' stroke-width='"@
            + self.stem@
            + "' fill='none' stroke-linecap='square'/><path d='M390 70 L412 70 M390 115 L412 115' stroke='currentColor' stroke-width='"@
            + self.serif@ + "' fill='none'/></g>"@
    }

    /// The outline of `O`: an ellipse centred at (520, 90) with radii 40 and 48,
    /// and a dashed stem arc whose dash is 48 pi to one decimal (150.8).
    pub open spec fn spec_glyph_o(self) -> Seq<char> {
        "<g class='be-O'"@ + self.spec_shear_transform()
            + "><ellipse cx='520' cy='90' rx='40' ry='48' stroke='currentColor' stroke-width='"@
            + self.serif@
            + "' fill='none'/><path d='M480 90 A40 48 0 0 1 560 90 A40 48 0 0 1 480 90' stroke='currentColor' stroke-width='"@
            + self.stem@ + "' fill='none' stroke-dasharray='150.8 150.8'/></g>"@
    }

    /// The full outline of a glyph, regardless of the license.
    pub open spec fn spec_outline(self, kind: GlyphKind) -> Seq<char> {
        match kind {
            GlyphKind::A => self.spec_glyph_a(),
            GlyphKind::B => self.spec_glyph_b(),
            GlyphKind::C => self.spec_glyph_c(),
            GlyphKind::O => self.spec_glyph_o(),
        }
    }

    /// What is drawn for a glyph: its outline when the license covers its
    /// complexity, the free-tier placeholder otherwise.
    pub open spec fn spec_render_glyph(self, kind: GlyphKind) -> Seq<char> {
        if self.spec_qos_allows(kind.spec_complexity()) {
            self.spec_outline(kind)
        } else {
            spec_free_tier_stub(kind.spec_letter())
        }
    }

    /// Draws `A` (or its placeholder).
    pub fn render_glyph_a(&self) -> (svg: String)
        ensures
            svg@ == self.spec_render_glyph(GlyphKind::A),
    {
        if !self.check_qos_budget(GlyphKind::A.complexity()) {
            return free_tier_stub('A');
        }
        let apex = snap(75);
        let x = self.shear_transform();
        let mut s = String::from_str("<g class='be-A'");
        s.append(x.as_str());
        s.append("><path d='M40 150 L");
        append_decimal(&mut s, apex as u64);
        s.append(" 30 L110 150' stroke='currentColor' stroke-width='");
        s.append(self.stem.as_str());
        s.append("' fill='none' stroke-linecap='square'/><path d='M55 110 L95 110 M30 150 L120 150 M");
        append_decimal(&mut s, (apex - 6) as u64);
        s.append(" 30 L");
        append_decimal(&mut s, (apex + 6) as u64);
        s.append(" 30' stroke='currentColor' stroke-width='");
        s.append(self.serif.as_str());
        s.append("' fill='none'/></g>");
        s
    }

    /// Draws `B` (or its placeholder).
    pub fn render_glyph_b(&self) -> (svg: String)
        ensures
            svg@ == self.spec_render_glyph(GlyphKind::B),
    {
        if !self.check_qos_budget(GlyphKind::B.complexity()) {
            return free_tier_stub('B');
        }
        let x = self.shear_transform();
        let mut s = String::from_str("<g class='be-B'");
        s.append(x.as_str());
        s.append("><path d='M200 30 L200 150' stroke='currentColor' stroke-width='");
        s.append(self.stem.as_str());
        s.append("' fill='none' stroke-linecap='square'/><path d='M200 30 Q258 30 258 65 Q258 100 200 100' stroke='currentColor' stroke-width='");
        s.append(self.serif.as_str());
        s.append("' fill='none'/><path d='M200 100 Q268 100 268 125 Q268 150 200 150' stroke='currentColor' stroke-width='");
        s.append(self.serif.as_str());
        s.append("' fill='none'/><path d='M195 30 L205 30 M195 150 L205 150' stroke='currentColor' stroke-width='");
        s.append(self.serif.as_str());
        s.append("' fill='none'/></g>");
        s
    }

    /// Draws `C` (or its placeholder).
    pub fn render_glyph_c(&self) -> (svg: String)
        ensures
            svg@ == self.spec_render_glyph(GlyphKind::C),
    {
        if !self.check_qos_budget(GlyphKind::C.complexity()) {
            return free_tier_stub('C');
        }
        let x = self.shear_transform();
        let mut s = String::from_str("<g class='be-C'");
        s.append(x.as_str());
        s.append("><path d='M400 70 Q394 30 355 30 Q308 30 308 90 Q308 150 355 150 Q394 150 400 115' stroke='currentColor' stroke-width='");
        s.append(self.serif.as_str());
        s.append("' fill='none'/><path d='M308 58 L308 122' stroke='currentColor' stroke-width='");
        s.append(self.stem.as_str());
        s.append("' fill='none' stroke-linecap='square'/><path d='M390 70 L412 70 M390 115 L412 115' stroke='currentColor' stroke-width='");
        s.append(self.serif.as_str());
        s.append("' fill='none'/></g>");
        s
    }

    /// Draws `O` (or its placeholder); it is charged the complexity of `A`.
    pub fn render_glyph_o(&self) -> (svg: String)
        ensures
            svg@ == self.spec_render_glyph(GlyphKind::O),
    {
        if !self.check_qos_budget(GlyphKind::O.complexity()) {
            return free_tier_stub('O');
        }
        let x = self.shear_transform();
        let mut s = String::from_str("<g class='be-O'");
        s.append(x.as_str());
        s.append("><ellipse cx='520' cy='90' rx='40' ry='48' stroke='currentColor' stroke-width='");
        s.append(self.serif.as_str());
        s.append("' fill='none'/><path d='M480 90 A40 48 0 0 1 560 90 A40 48 0 0 1 480 90' stroke='currentColor' stroke-width='");
        s.append(self.stem.as_str());
        s.append("' fill='none' stroke-dasharray='150.8 150.8'/></g>");
        s
    }

    /// Draws a glyph (or its placeholder).
    pub fn render_glyph(&self, kind: GlyphKind) -> (svg: String)
        ensures
            svg@ == self.spec_render_glyph(kind),
    {
        match kind {
            GlyphKind::A => self.render_glyph_a(),
            GlyphKind::B => self.render_glyph_b(),
            GlyphKind::C => self.render_glyph_c(),
            GlyphKind::O => self.render_glyph_o(),
        }
    }
}

/// What is drawn for a character without an outline: the character itself in
/// a faint serif.
pub open spec fn spec_fallback_glyph(c: char) -> Seq<char> {
    "<text x='20' y='110' fill='rgba(255,255,255,0.3)' font-size='80' font-family='serif'>"@
        + seq![c] + "</text>"@
}

/// `inner` shifted right by `offset` units.
pub open spec fn spec_translated(offset: nat, inner: Seq<char>) -> Seq<char> {
    "<g transform='translate("@ + decimal(offset) + ",0)'>"@ + inner + "</g>"@
}

/// Width of the canvas for `count` characters: one 160-unit cell each, and
/// at least one cell.
pub open spec fn canvas_width(count: nat) -> nat {
    if count == 0 {
        160
    } else {
        count * 160
    }
}

impl FontParams {
    /// What is drawn for one character: its glyph (or placeholder) when it
    /// has an outline after ASCII upper-casing, the fallback text otherwise.
    pub open spec fn spec_cell(self, c: char) -> Seq<char> {
        match crate::glyph::glyph_for(c) {
            Some(kind) => self.spec_render_glyph(kind),
            None => spec_fallback_glyph(c),
        }
    }

    /// The cells of `s`, the `i`-th shifted right by `160 * i`.
    pub open spec fn spec_glyph_row(self, s: Seq<char>) -> Seq<char>
        decreases s.len(),
    {
        if s.len() == 0 {
            Seq::empty()
        } else {
            self.spec_glyph_row(s.drop_last()) + spec_translated(
                ((s.len() - 1) * 160) as nat,
                self.spec_cell(s.last()),
            )
        }
    }

    /// The SVG document that renders `s`.
    pub open spec fn spec_render_string(self, s: Seq<char>) -> Seq<char> {
        "<svg width='"@ + decimal(canvas_width(s.len())) + "' height='180' viewBox='0 0 "@
            + decimal(canvas_width(s.len()))
            + " 180' xmlns='http://www.w3.org/2000/svg'>"@ + self.spec_glyph_row(s)
            + "</svg>"@
    }

    /// Draws one character as it appears in a rendered string.
    pub fn render_cell(&self, index: &crate::glyph::GlyphIndex, ch: char) -> (svg: String)
        requires
            index@ == crate::glyph::glyph_table(),
        ensures
            svg@ == self.spec_cell(ch),
    {
        match index.get(crate::glyph::to_ascii_uppercase(ch)) {
            Some(kind) => self.render_glyph(kind),
            None => {
                let mut s = String::from_str(
                    "<text x='20' y='110' fill='rgba(255,255,255,0.3)' font-size='80' font-family='serif'>",
                );
                push_char(&mut s, ch);
                s.append("</text>");
                s
            },
        }
    }

    /// The row of translated cells for `chars`.
    fn glyph_row(&self, chars: &str) -> (row: String)
        requires
            chars@.len() <= usize::MAX / 160,
        ensures
            row@ == self.spec_glyph_row(chars@),
    {
        let index = crate::glyph::GlyphIndex::new();
        let mut glyphs = String::new();
        let ghost text = chars@;
        let mut i: usize = 0;
        for ch in it: chars.chars()
            invariant
                it.seq() == text,
                text == chars@,
                text.len() <= usize::MAX / 160,
                i == it.index(),
                index@ == crate::glyph::glyph_table(),
                glyphs@ == self.spec_glyph_row(text.take(i as int)),
        {
            assert(text.take(i + 1).drop_last() == text.take(i as int));
            assert(ch == text[i as int]);
            let cell = self.render_cell(&index, ch);
            let offset = i * 160;
            glyphs.append("<g transform='translate(");
            append_decimal(&mut glyphs, offset as u64);
            glyphs.append(",0)'>");
            glyphs.append(cell.as_str());
            glyphs.append("</g>");
            i = i + 1;
        }
        assert(text.take(text.len() as int) == text);
        glyphs
    }

    /// Renders `chars` as an SVG document, one 160-unit cell per character.
    pub fn render_string(&self, chars: &str) -> (svg: String)
        requires
            chars@.len() <= usize::MAX / 160,
        ensures
            svg@ == self.spec_render_string(chars@),
    {
        let n = chars.unicode_len();
        let cells = if n == 0 { 1 } else { n };
        let w = cells * 160;
        let glyphs = self.glyph_row(chars);
        let mut s = String::from_str("<svg width='");
        append_decimal(&mut s, w as u64);
        s.append("' height='180' viewBox='0 0 ");
        append_decimal(&mut s, w as u64);
        s.append(" 180' xmlns='http://www.w3.org/2000/svg'>");
        s.append(glyphs.as_str());
        s.append("</svg>");
        s
    }
}

/// `true` or `false`.
pub open spec fn bool_text(b: bool) -> Seq<char> {
    if b {
        "true"@
    } else {
        "false"@
    }
}

/// The proof-of-render envelope: the SVG as a JSON string, its hash and the
/// parameters that produced it.
pub open spec fn spec_proof_envelope(svg: Seq<char>, hash: Seq<char>, params: Seq<char>) -> Seq<char> {
    "{\"svg\":"@ + crate::json::json_quoted(svg) + ",\"sha256\":\""@ + hash + "\",\"params\":"@
        + params + "}"@
}

/// Wraps a rendered SVG, its hash and its parameter JSON into the
/// proof-of-render envelope.
pub fn proof_envelope(svg: &str, hash: &str, params: &str) -> (envelope: String)
    ensures
        envelope@ == spec_proof_envelope(svg@, hash@, params@),
{
    let quoted = crate::json::serde_json_escape(svg);
    let mut s = String::from_str("{\"svg\":");
    s.append(quoted.as_str());
    s.append(",\"sha256\":\"");
    s.append(hash);
    s.append("\",\"params\":");
    s.append(params);
    s.append("}");
    s
}

impl FontParams {
    /// The parameter record as JSON.
    pub open spec fn spec_params_json(self) -> Seq<char> {
        "{\"baseline\":\"barcelona_extropic\",\"stem_width\":"@ + self.stem@ + ",\"serif_width\":"@
            + self.serif_fine@ + ",\"contrast_ratio\":"@ + self.contrast_ratio@
            + ",\"tracking_em\":"@ + self.tracking_em@ + ",\"shear_deg\":"@ + self.shear_deg@
            + ",\"weight_multiplier\":"@ + self.weight_multiplier@ + ",\"is_premium\":"@
            + bool_text(self.is_premium) + "}"@
    }

    /// Exports the parameter record as JSON.
    pub fn export_params_json(&self) -> (json: String)
        ensures
            json@ == self.spec_params_json(),
    {
        let mut s = String::from_str("{\"baseline\":\"barcelona_extropic\",\"stem_width\":");
        s.append(self.stem.as_str());
        s.append(",\"serif_width\":");
        s.append(self.serif_fine.as_str());
        s.append(",\"contrast_ratio\":");
        s.append(self.contrast_ratio.as_str());
        s.append(",\"tracking_em\":");
        s.append(self.tracking_em.as_str());
        s.append(",\"shear_deg\":");
        s.append(self.shear_deg.as_str());
        s.append(",\"weight_multiplier\":");
        s.append(self.weight_multiplier.as_str());
        s.append(",\"is_premium\":");
        if self.is_premium {
            s.append("true");
        } else {
            s.append("false");
        }
        s.append("}");
        s
    }

    /// The proof-of-render envelope of `s`: the SVG, the lowercase hex SHA-256
    /// of the SVG's bytes followed by the parameter JSON's bytes, and the
    /// parameter JSON.
    pub open spec fn spec_render_with_proof(self, s: Seq<char>) -> Seq<char> {
        let svg = self.spec_render_string(s);
        let params = self.spec_params_json();
        spec_proof_envelope(svg, crate::digest::proof_hash(svg, params), params)
    }

    /// Renders `chars` and returns the SVG together with its proof-of-render
    /// hash and the parameters, as one JSON object.
    pub fn render_string_with_proof(&self, chars: &str) -> (envelope: String)
        requires
            chars@.len() <= usize::MAX / 160,
        ensures
            envelope@ == self.spec_render_with_proof(chars@),
            crate::digest::is_hex_digest(
                crate::digest::proof_hash(self.spec_render_string(chars@), self.spec_params_json()),
            ),
    {
        let svg_body = self.render_string(chars);
        let params = self.export_params_json();
        let hash = crate::digest::proof_of_render_hash(svg_body.as_str(), params.as_str());
        proof_envelope(svg_body.as_str(), hash.as_str(), params.as_str())
    }
}

/// A proof-of-render envelope determines its parts: two envelopes whose
/// hashes have the same length are equal only when their SVGs, hashes and
/// parameter JSONs are equal. In particular, re-parameterising a render
/// always changes its envelope.
pub proof fn lemma_proof_envelope_parts(
    svg1: Seq<char>,
    hash1: Seq<char>,
    params1: Seq<char>,
    svg2: Seq<char>,
    hash2: Seq<char>,
    params2: Seq<char>,
)
    requires
        hash1.len() == hash2.len(),
        spec_proof_envelope(svg1, hash1, params1) == spec_proof_envelope(svg2, hash2, params2),
    ensures
        svg1 == svg2,
        hash1 == hash2,
        params1 == params2,
{
    reveal_strlit("{\"svg\":");
    reveal_strlit(",\"sha256\":\"");
    reveal_strlit("\",\"params\":");
    reveal_strlit("}");
    let head = "{\"svg\":"@;
    let mid = ",\"sha256\":\""@;
    let sep = "\",\"params\":"@;
    let close = "}"@;
    let tail1 = mid + hash1 + sep + params1 + close;
    let tail2 = mid + hash2 + sep + params2 + close;
    let e1 = spec_proof_envelope(svg1, hash1, params1);
    let e2 = spec_proof_envelope(svg2, hash2, params2);
    assert(e1 == head + (crate::json::json_quoted(svg1) + tail1));
    assert(e2 == head + (crate::json::json_quoted(svg2) + tail2));
    assert(crate::json::json_quoted(svg1) + tail1 == e1.subrange(7, e1.len() as int));
    assert(crate::json::json_quoted(svg2) + tail2 == e2.subrange(7, e2.len() as int));
    crate::json::lemma_json_quoted_prefix(svg1, svg2, tail1, tail2);
    let n = hash1.len() as int;
    assert(hash1 == tail1.subrange(11, 11 + n));
    assert(hash2 == tail2.subrange(11, 11 + n));
    assert(params1 == tail1.subrange(11 + n + 11, tail1.len() - 1));
    assert(params2 == tail2.subrange(11 + n + 11, tail2.len() - 1));
}

/// License tiers: a premium license draws every glyph in full; a free license
/// draws `A`, `C` and `O` in full and replaces `B`, the only glyph over the
/// free-tier budget, with its placeholder.
pub proof fn lemma_qos_tiers(params: FontParams, kind: GlyphKind)
    ensures
        params.is_premium ==> params.spec_render_glyph(kind) == params.spec_outline(kind),
        !params.is_premium ==> (params.spec_render_glyph(kind) == if kind == GlyphKind::B {
            spec_free_tier_stub('B')
        } else {
            params.spec_outline(kind)
        }),
{
}

/// Rendering is a function of the parameters and the text: equal inputs give
/// equal SVGs and equal proof-of-render envelopes.
pub proof fn lemma_render_deterministic(p1: FontParams, p2: FontParams, s1: Seq<char>, s2: Seq<char>)
    requires
        p1.is_premium == p2.is_premium,
        p1.stem@ == p2.stem@,
        p1.serif@ == p2.serif@,
        p1.serif_fine@ == p2.serif_fine@,
        p1.contrast_ratio@ == p2.contrast_ratio@,
        p1.tracking_em@ == p2.tracking_em@,
        p1.shear_deg@ == p2.shear_deg@,
        p1.shear_visible == p2.shear_visible,
        p1.weight_multiplier@ == p2.weight_multiplier@,
        s1 == s2,
    ensures
        p1.spec_render_string(s1) == p2.spec_render_string(s2),
        p1.spec_render_with_proof(s1) == p2.spec_render_with_proof(s2),
{
    assert(forall|k: GlyphKind| p1.spec_render_glyph(k) == p2.spec_render_glyph(k));
    assert(forall|c: char| p1.spec_cell(c) == p2.spec_cell(c));
    lemma_glyph_row_congruent(p1, p2, s1);
}

proof fn lemma_glyph_row_congruent(p1: FontParams, p2: FontParams, s: Seq<char>)
    requires
        forall|c: char| p1.spec_cell(c) == p2.spec_cell(c),
    ensures
        p1.spec_glyph_row(s) == p2.spec_glyph_row(s),
    decreases s.len(),
{
    if s.len() > 0 {
        lemma_glyph_row_congruent(p1, p2, s.drop_last());
    }
}

/// The placeholder appears exactly where the license is free and the
/// character is `B` or `b`: a cell equals the placeholder of `B` exactly
/// then, and under a premium license no cell is a placeholder of any letter.
pub proof fn lemma_placeholder_cells(params: FontParams, c: char)
    ensures
        (params.spec_cell(c) == spec_free_tier_stub('B')) <==> (!params.is_premium && crate::glyph::ascii_upper(c) == 'B'),
        params.is_premium ==> forall|x: char| params.spec_cell(c) != #[trigger] spec_free_tier_stub(x),
{
    let stub_head =
        "<text x='0' y='100' font-size='12' fill='rgba(255,100,100,0.7)' font-family='monospace'>QoS:"@;
    reveal_strlit(
        "<text x='0' y='100' font-size='12' fill='rgba(255,100,100,0.7)' font-family='monospace'>QoS:",
    );
    reveal_strlit(
        "<text x='20' y='110' fill='rgba(255,255,255,0.3)' font-size='80' font-family='serif'>",
    );
    reveal_strlit("<g class='be-A'");
    reveal_strlit("<g class='be-B'");
    reveal_strlit("<g class='be-C'");
    reveal_strlit("<g class='be-O'");
    assert forall|x: char| #[trigger] spec_free_tier_stub(x)[1] == 't' && spec_free_tier_stub(x)[9] == '0'
        && spec_free_tier_stub(x)[stub_head.len() as int] == x by {}
    assert forall|k: GlyphKind| #[trigger] params.spec_outline(k)[1] == 'g' by {}
    assert(spec_fallback_glyph(c)[9] == '2');
    let u = crate::glyph::ascii_upper(c);
    if u == 'B' {
        assert(crate::glyph::glyph_for(c) == Some(GlyphKind::B));
    }
    match crate::glyph::glyph_for(c) {
        Some(k) => {
            assert(k.spec_letter() == u);
            if params.spec_cell(c) == spec_free_tier_stub('B') {
                assert(params.spec_cell(c)[1] == 't');
                assert(params.spec_render_glyph(k) != params.spec_outline(k));
                assert(spec_free_tier_stub(k.spec_letter())[stub_head.len() as int] == 'B');
            }
        },
        None => {
            assert(u != 'B');
            assert(params.spec_cell(c)[9] == '2');
        },
    }
    if params.is_premium {
        assert forall|x: char| params.spec_cell(c) != #[trigger] spec_free_tier_stub(x) by {
            if let Some(k) = crate::glyph::glyph_for(c) {
                assert(params.spec_cell(c)[1] == 'g');
            } else {
                assert(params.spec_cell(c)[9] == '2');
            }
        }
    }
}

/// Characters with an outline are drawn alike in either case: two texts
/// whose characters all have outlines and agree after ASCII upper-casing
/// render identically (so `abco` renders as `ABCO`).
pub proof fn lemma_render_case_insensitive(params: FontParams, s1: Seq<char>, s2: Seq<char>)
    requires
        s1.len() == s2.len(),
        forall|i: int| 0 <= i < s1.len() ==> crate::glyph::ascii_upper(#[trigger] s1[i]) == crate::glyph::ascii_upper(s2[i]),
        forall|i: int| 0 <= i < s1.len() ==> (#[trigger] crate::glyph::glyph_for(s1[i])) is Some,
    ensures
        params.spec_render_string(s1) == params.spec_render_string(s2),
{
    lemma_glyph_row_case_insensitive(params, s1, s2);
}

proof fn lemma_glyph_row_case_insensitive(params: FontParams, s1: Seq<char>, s2: Seq<char>)
    requires
        s1.len() == s2.len(),
        forall|i: int| 0 <= i < s1.len() ==> crate::glyph::ascii_upper(#[trigger] s1[i]) == crate::glyph::ascii_upper(s2[i]),
        forall|i: int| 0 <= i < s1.len() ==> (#[trigger] crate::glyph::glyph_for(s1[i])) is Some,
    ensures
        params.spec_glyph_row(s1) == params.spec_glyph_row(s2),
    decreases s1.len(),
{
    if s1.len() > 0 {
        let n = s1.len() - 1;
        assert(crate::glyph::ascii_upper(s1[n]) == crate::glyph::ascii_upper(s2[n]));
        assert(crate::glyph::glyph_for(s1[n]) is Some);
        assert(params.spec_cell(s1.last()) == params.spec_cell(s2.last()));
        let d1 = s1.drop_last();
        let d2 = s2.drop_last();
        assert forall|i: int| 0 <= i < d1.len() implies crate::glyph::ascii_upper(#[trigger] d1[i]) == crate::glyph::ascii_upper(d2[i]) by {
            assert(d1[i] == s1[i] && d2[i] == s2[i]);
        }
        assert forall|i: int| 0 <= i < d1.len() implies (#[trigger] crate::glyph::glyph_for(d1[i])) is Some by {
            assert(d1[i] == s1[i]);
        }
        lemma_glyph_row_case_insensitive(params, d1, d2);
    }
}

/// A cell of the row appears in the row, and the row in the document.
proof fn lemma_row_contains_cell(params: FontParams, s: Seq<char>, i: int)
    requires
        0 <= i < s.len(),
    ensures
        contains_text(params.spec_render_string(s), params.spec_cell(s[i])),
        contains_text(params.spec_glyph_row(s), params.spec_cell(s[i])),
    decreases s.len(),
{
    let cell = params.spec_cell(s[i]);
    let row = params.spec_glyph_row(s);
    let front = params.spec_glyph_row(s.drop_last());
    let k: int;
    if i == s.len() - 1 {
        let head = "<g transform='translate("@ + decimal(((s.len() - 1) * 160) as nat) + ",0)'>"@;
        assert(row == front + head + cell + "</g>"@);
        k = front.len() as int + head.len() as int;
        assert(row.subrange(k, k + cell.len()) =~= cell);
    } else {
        lemma_row_contains_cell(params, s.drop_last(), i);
        assert(s.drop_last()[i] == s[i]);
        let j = choose|j: int| #[trigger] occurs_at(front, cell, j);
        assert(occurs_at(front, cell, j));
        assert(row == front + spec_translated(((s.len() - 1) * 160) as nat, params.spec_cell(s.last())));
        k = j;
        assert(row.subrange(k, k + cell.len()) =~= front.subrange(k, k + cell.len()));
    }
    assert(occurs_at(row, cell, k));
    let pre = "<svg width='"@ + decimal(canvas_width(s.len())) + "' height='180' viewBox='0 0 "@
        + decimal(canvas_width(s.len())) + " 180' xmlns='http://www.w3.org/2000/svg'>"@;
    let doc = params.spec_render_string(s);
    assert(doc == pre + row + "</svg>"@);
    assert(doc.subrange(pre.len() + k, pre.len() + k + cell.len()) =~= row.subrange(k, k + cell.len()));
    assert(occurs_at(doc, cell, pre.len() + k));
}

/// Every character of a text is drawn in the rendered document in its own
/// cell, shifted right by 160 units per position.
pub proof fn lemma_render_cell_offsets(params: FontParams, s: Seq<char>, i: int)
    requires
        0 <= i < s.len(),
    ensures
        contains_text(params.spec_glyph_row(s), spec_translated((i * 160) as nat, params.spec_cell(s[i]))),
        contains_text(params.spec_render_string(s), spec_translated((i * 160) as nat, params.spec_cell(s[i]))),
    decreases s.len(),
{
    let cell = spec_translated((i * 160) as nat, params.spec_cell(s[i]));
    let row = params.spec_glyph_row(s);
    let front = params.spec_glyph_row(s.drop_last());
    let k: int;
    if i == s.len() - 1 {
        assert(row == front + cell);
        k = front.len() as int;
        assert(row.subrange(k, k + cell.len()) =~= cell);
    } else {
        lemma_render_cell_offsets(params, s.drop_last(), i);
        assert(s.drop_last()[i] == s[i]);
        let j = choose|j: int| #[trigger] occurs_at(front, cell, j);
        assert(occurs_at(front, cell, j));
        assert(row == front + spec_translated(((s.len() - 1) * 160) as nat, params.spec_cell(s.last())));
        k = j;
        assert(row.subrange(k, k + cell.len()) =~= front.subrange(k, k + cell.len()));
    }
    assert(occurs_at(row, cell, k));
    let pre = "<svg width='"@ + decimal(canvas_width(s.len())) + "' height='180' viewBox='0 0 "@
        + decimal(canvas_width(s.len())) + " 180' xmlns='http://www.w3.org/2000/svg'>"@;
    let doc = params.spec_render_string(s);
    assert(doc == pre + row + "</svg>"@);
    assert(doc.subrange(pre.len() + k, pre.len() + k + cell.len()) =~= row.subrange(k, k + cell.len()));
    assert(occurs_at(doc, cell, pre.len() + k));
}

/// The license law for a whole text: some cell of the rendered text is the
/// placeholder of `B` exactly when the license is free and the text contains
/// `B` or `b`; then the rendered document contains that placeholder; and
/// under a premium license no cell is a placeholder of any letter. `A`, `C`
/// and `O` are never replaced.
pub proof fn lemma_placeholder_in_text(params: FontParams, s: Seq<char>)
    ensures
        (exists|i: int| 0 <= i < s.len() && params.spec_cell(#[trigger] s[i]) == spec_free_tier_stub('B'))
            <==> (!params.is_premium && exists|i: int| 0 <= i < s.len() && crate::glyph::ascii_upper(#[trigger] s[i]) == 'B'),
        (!params.is_premium && exists|i: int| 0 <= i < s.len() && crate::glyph::ascii_upper(#[trigger] s[i]) == 'B')
            ==> contains_text(params.spec_render_string(s), spec_free_tier_stub('B')),
        params.is_premium ==> forall|i: int, x: char| 0 <= i < s.len() ==> params.spec_cell(#[trigger] s[i]) != #[trigger] spec_free_tier_stub(x),
{
    assert forall|i: int| 0 <= i < s.len() implies
        (params.spec_cell(#[trigger] s[i]) == spec_free_tier_stub('B')) <==> (!params.is_premium && crate::glyph::ascii_upper(s[i]) == 'B')
    by {
        lemma_placeholder_cells(params, s[i]);
    }
    if !params.is_premium && exists|i: int| 0 <= i < s.len() && crate::glyph::ascii_upper(#[trigger] s[i]) == 'B' {
        let i = choose|i: int| 0 <= i < s.len() && crate::glyph::ascii_upper(#[trigger] s[i]) == 'B';
        lemma_placeholder_cells(params, s[i]);
        lemma_row_contains_cell(params, s, i);
    }
    if params.is_premium {
        assert forall|i: int, x: char| 0 <= i < s.len() implies params.spec_cell(#[trigger] s[i]) != #[trigger] spec_free_tier_stub(x) by {
            lemma_placeholder_cells(params, s[i]);
        }
    }
}

/// The outline of `A` is a group carrying the shear, with two paths: the
/// diagonals meeting at the grid-snapped apex (x = 76), drawn at the stem width,
/// and the crossbar, baseline serifs and apex serif (x = 70 to 82), drawn at the
/// serif width.
#[verifier::spinoff_prover]
#[verifier::rlimit(100)]
pub proof fn lemma_glyph_a_strokes(p: FontParams)
    ensures
        contains_text(p.spec_outline(GlyphKind::A), "<g class='be-A'"@ + p.spec_shear_transform() + ">"@),
        contains_text(p.spec_outline(GlyphKind::A), "<path d='M40 150 L"@ + decimal(apex_a() as nat) + " 30 L110 150' stroke='currentColor' stroke-width='"@ + p.stem@ + "'"@),
        contains_text(p.spec_outline(GlyphKind::A), "<path d='M55 110 L95 110 M30 150 L120 150 M"@ + decimal((apex_a() - 6) as nat) + " 30 L"@ + decimal((apex_a() + 6) as nat) + " 30' stroke='currentColor' stroke-width='"@ + p.serif@ + "'"@),
        apex_a() == 76,
        decimal(apex_a() as nat) == seq!['7', '6'],
        decimal((apex_a() - 6) as nat) == seq!['7', '0'],
        decimal((apex_a() + 6) as nat) == seq!['8', '2'],
{
    assert(apex_a() == 76);
    assert(decimal(76) == seq!['7', '6']) by { reveal_with_fuel(decimal, 2); }
    assert(decimal(70) == seq!['7', '0']) by { reveal_with_fuel(decimal, 2); }
    assert(decimal(82) == seq!['8', '2']) by { reveal_with_fuel(decimal, 2); }
    assert(contains_text(p.spec_outline(GlyphKind::A), "<g class='be-A'"@ + p.spec_shear_transform() + ">"@)) by {
        reveal_strlit("<g class='be-A'");
        reveal_strlit("><path d='M40 150 L");
        reveal_strlit(">");
        reveal_strlit("<path d='M40 150 L");
        assert("><path d='M40 150 L"@ =~= ">"@ + "<path d='M40 150 L"@);
        let g = p.spec_outline(GlyphKind::A);
        assert(g =~= Seq::<char>::empty() + "<g class='be-A'"@ + p.spec_shear_transform() + "><path d='M40 150 L"@ + decimal(apex_a() as nat) + " 30 L110 150' stroke='currentColor' stroke-width='"@ + p.stem@ + "' fill='none' stroke-linecap='square'/><path d='M55 110 L95 110 M30 150 L120 150 M"@ + decimal((apex_a() - 6) as nat) + " 30 L"@ + decimal((apex_a() + 6) as nat) + " 30' stroke='currentColor' stroke-width='"@ + p.serif@ + "' fill='none'/></g>"@);
        assert(g =~= (Seq::<char>::empty()) + ("<g class='be-A'"@ + p.spec_shear_transform() + ">"@) + ("<path d='M40 150 L"@ + decimal(apex_a() as nat) + " 30 L110 150' stroke='currentColor' stroke-width='"@ + p.stem@ + "' fill='none' stroke-linecap='square'/><path d='M55 110 L95 110 M30 150 L120 150 M"@ + decimal((apex_a() - 6) as nat) + " 30 L"@ + decimal((apex_a() + 6) as nat) + " 30' stroke='currentColor' stroke-width='"@ + p.serif@ + "' fill='none'/></g>"@));
        lemma_infix((Seq::<char>::empty()), "<g class='be-A'"@ + p.spec_shear_transform() + ">"@, "<path d='M40 150 L"@ + decimal(apex_a() as nat) + " 30 L110 150' stroke='currentColor' stroke-width='"@ + p.stem@ + "' fill='none' stroke-linecap='square'/><path d='M55 110 L95 110 M30 150 L120 150 M"@ + decimal((apex_a() - 6) as nat) + " 30 L"@ + decimal((apex_a() + 6) as nat) + " 30' stroke='currentColor' stroke-width='"@ + p.serif@ + "' fill='none'/></g>"@);
    }
    assert(contains_text(p.spec_outline(GlyphKind::A), "<path d='M40 150 L"@ + decimal(apex_a() as nat) + " 30 L110 150' stroke='currentColor' stroke-width='"@ + p.stem@ + "'"@)) by {
        reveal_strlit("><path d='M40 150 L");
        reveal_strlit("<path d='M40 150 L");
        reveal_strlit("' fill='none' stroke-linecap='square'/><path d='M55 110 L95 110 M30 150 L120 150 M");
        reveal_strlit("'");
        reveal_strlit(">");
        reveal_strlit(" fill='none' stroke-linecap='square'/><path d='M55 110 L95 110 M30 150 L120 150 M");
        assert("><path d='M40 150 L"@ =~= ">"@ + "<path d='M40 150 L"@);
        assert("' fill='none' stroke-linecap='square'/><path d='M55 110 L95 110 M30 150 L120 150 M"@ =~= "'"@ + " fill='none' stroke-linecap='square'/><path d='M55 110 L95 110 M30 150 L120 150 M"@);
        let g = p.spec_outline(GlyphKind::A);
        assert(g =~= "<g class='be-A'"@ + p.spec_shear_transform() + "><path d='M40 150 L"@ + decimal(apex_a() as nat) + " 30 L110 150' stroke='currentColor' stroke-width='"@ + p.stem@ + "' fill='none' stroke-linecap='square'/><path d='M55 110 L95 110 M30 150 L120 150 M"@ + decimal((apex_a() - 6) as nat) + " 30 L"@ + decimal((apex_a() + 6) as nat) + " 30' stroke='currentColor' stroke-width='"@ + p.serif@ + "' fill='none'/></g>"@);
        assert(g =~= ("<g class='be-A'"@ + p.spec_shear_transform() + ">"@) + ("<path d='M40 150 L"@ + decimal(apex_a() as nat) + " 30 L110 150' stroke='currentColor' stroke-width='"@ + p.stem@ + "'"@) + (" fill='none' stroke-linecap='square'/><path d='M55 110 L95 110 M30 150 L120 150 M"@ + decimal((apex_a() - 6) as nat) + " 30 L"@ + decimal((apex_a() + 6) as nat) + " 30' stroke='currentColor' stroke-width='"@ + p.serif@ + "' fill='none'/></g>"@));
        lemma_infix(("<g class='be-A'"@ + p.spec_shear_transform() + ">"@), "<path d='M40 150 L"@ + decimal(apex_a() as nat) + " 30 L110 150' stroke='currentColor' stroke-width='"@ + p.stem@ + "'"@, " fill='none' stroke-linecap='square'/><path d='M55 110 L95 110 M30 150 L120 150 M"@ + decimal((apex_a() - 6) as nat) + " 30 L"@ + decimal((apex_a() + 6) as nat) + " 30' stroke='currentColor' stroke-width='"@ + p.serif@ + "' fill='none'/></g>"@);
    }
    assert(contains_text(p.spec_outline(GlyphKind::A), "<path d='M55 110 L95 110 M30 150 L120 150 M"@ + decimal((apex_a() - 6) as nat) + " 30 L"@ + decimal((apex_a() + 6) as nat) + " 30' stroke='currentColor' stroke-width='"@ + p.serif@ + "'"@)) by {
        reveal_strlit("' fill='none' stroke-linecap='square'/><path d='M55 110 L95 110 M30 150 L120 150 M");
        reveal_strlit("<path d='M55 110 L95 110 M30 150 L120 150 M");
        reveal_strlit("' fill='none'/></g>");
        reveal_strlit("'");
        reveal_strlit("' fill='none' stroke-linecap='square'/>");
        reveal_strlit(" fill='none'/></g>");
        assert("' fill='none' stroke-linecap='square'/><path d='M55 110 L95 110 M30 150 L120 150 M"@ =~= "' fill='none' stroke-linecap='square'/>"@ + "<path d='M55 110 L95 110 M30 150 L120 150 M"@);
        assert("' fill='none'/></g>"@ =~= "'"@ + " fill='none'/></g>"@);
        let g = p.spec_outline(GlyphKind::A);
        assert(g =~= "<g class='be-A'"@ + p.spec_shear_transform() + "><path d='M40 150 L"@ + decimal(apex_a() as nat) + " 30 L110 150' stroke='currentColor' stroke-width='"@ + p.stem@ + "' fill='none' stroke-linecap='square'/><path d='M55 110 L95 110 M30 150 L120 150 M"@ + decimal((apex_a() - 6) as nat) + " 30 L"@ + decimal((apex_a() + 6) as nat) + " 30' stroke='currentColor' stroke-width='"@ + p.serif@ + "' fill='none'/></g>"@);
        assert(g =~= ("<g class='be-A'"@ + p.spec_shear_transform() + "><path d='M40 150 L"@ + decimal(apex_a() as nat) + " 30 L110 150' stroke='currentColor' stroke-width='"@ + p.stem@ + "' fill='none' stroke-linecap='square'/>"@) + ("<path d='M55 110 L95 110 M30 150 L120 150 M"@ + decimal((apex_a() - 6) as nat) + " 30 L"@ + decimal((apex_a() + 6) as nat) + " 30' stroke='currentColor' stroke-width='"@ + p.serif@ + "'"@) + (" fill='none'/></g>"@));
        lemma_infix(("<g class='be-A'"@ + p.spec_shear_transform() + "><path d='M40 150 L"@ + decimal(apex_a() as nat) + " 30 L110 150' stroke='currentColor' stroke-width='"@ + p.stem@ + "' fill='none' stroke-linecap='square'/>"@), "<path d='M55 110 L95 110 M30 150 L120 150 M"@ + decimal((apex_a() - 6) as nat) + " 30 L"@ + decimal((apex_a() + 6) as nat) + " 30' stroke='currentColor' stroke-width='"@ + p.serif@ + "'"@, " fill='none'/></g>"@);
    }
}

/// The outline of `B` is a group carrying the shear, with four paths: the stem
/// at the stem width, and the upper bowl, the lower bowl and the serifs at the
/// serif width.
#[verifier::spinoff_prover]
#[verifier::rlimit(100)]
pub proof fn lemma_glyph_b_strokes(p: FontParams)
    ensures
        contains_text(p.spec_outline(GlyphKind::B), "<g class='be-B'"@ + p.spec_shear_transform() + ">"@),
        contains_text(p.spec_outline(GlyphKind::B), "<path d='M200 30 L200 150' stroke='currentColor' stroke-width='"@ + p.stem@ + "'"@),
        contains_text(p.spec_outline(GlyphKind::B), "<path d='M200 30 Q258 30 258 65 Q258 100 200 100' stroke='currentColor' stroke-width='"@ + p.serif@ + "'"@),
        contains_text(p.spec_outline(GlyphKind::B), "<path d='M200 100 Q268 100 268 125 Q268 150 200 150' stroke='currentColor' stroke-width='"@ + p.serif@ + "'"@),
        contains_text(p.spec_outline(GlyphKind::B), "<path d='M195 30 L205 30 M195 150 L205 150' stroke='currentColor' stroke-width='"@ + p.serif@ + "'"@),
{
    assert(contains_text(p.spec_outline(GlyphKind::B), "<g class='be-B'"@ + p.spec_shear_transform() + ">"@)) by {
        reveal_strlit("<g class='be-B'");
        reveal_strlit("><path d='M200 30 L200 150' stroke='currentColor' stroke-width='");
        reveal_strlit(">");
        reveal_strlit("<path d='M200 30 L200 150' stroke='currentColor' stroke-width='");
        assert("><path d='M200 30 L200 150' stroke='currentColor' stroke-width='"@ =~= ">"@ + "<path d='M200 30 L200 150' stroke='currentColor' stroke-width='"@);
        let g = p.spec_outline(GlyphKind::B);
        assert(g =~= Seq::<char>::empty() + "<g class='be-B'"@ + p.spec_shear_transform() + "><path d='M200 30 L200 150' stroke='currentColor' stroke-width='"@ + p.stem@ + "' fill='none' stroke-linecap='square'/><path d='M200 30 Q258 30 258 65 Q258 100 200 100' stroke='currentColor' stroke-width='"@ + p.serif@ + "' fill='none'/><path d='M200 100 Q268 100 268 125 Q268 150 200 150' stroke='currentColor' stroke-width='"@ + p.serif@ + "' fill='none'/><path d='M195 30 L205 30 M195 150 L205 150' stroke='currentColor' stroke-width='"@ + p.serif@ + "' fill='none'/></g>"@);
        assert(g =~= (Seq::<char>::empty()) + ("<g class='be-B'"@ + p.spec_shear_transform() + ">"@) + ("<path d='M200 30 L200 150' stroke='currentColor' stroke-width='"@ + p.stem@ + "' fill='none' stroke-linecap='square'/><path d='M200 30 Q258 30 258 65 Q258 100 200 100' stroke='currentColor' stroke-width='"@ + p.serif@ + "' fill='none'/><path d='M200 100 Q268 100 268 125 Q268 150 200 150' stroke='currentColor' stroke-width='"@ + p.serif@ + "' fill='none'/><path d='M195 30 L205 30 M195 150 L205 150' stroke='currentColor' stroke-width='"@ + p.serif@ + "' fill='none'/></g>"@));
        lemma_infix((Seq::<char>::empty()), "<g class='be-B'"@ + p.spec_shear_transform() + ">"@, "<path d='M200 30 L200 150' stroke='currentColor' stroke-width='"@ + p.stem@ + "' fill='none' stroke-linecap='square'/><path d='M200 30 Q258 30 258 65 Q258 100 200 100' stroke='currentColor' stroke-width='"@ + p.serif@ + "' fill='none'/><path d='M200 100 Q268 100 268 125 Q268 150 200 150' stroke='currentColor' stroke-width='"@ + p.serif@ + "' fill='none'/><path d='M195 30 L205 30 M195 150 L205 150' stroke='currentColor' stroke-width='"@ + p.serif@ + "' fill='none'/></g>"@);
    }
    assert(contains_text(p.spec_outline(GlyphKind::B), "<path d='M200 30 L200 150' stroke='currentColor' stroke-width='"@ + p.stem@ + "'"@)) by {
        reveal_strlit("><path d='M200 30 L200 150' stroke='currentColor' stroke-width='");
        reveal_strlit("<path d='M200 30 L200 150' stroke='currentColor' stroke-width='");
        reveal_strlit("' fill='none' stroke-linecap='square'/><path d='M200 30 Q258 30 258 65 Q258 100 200 100' stroke='currentColor' stroke-width='");
        reveal_strlit("'");
        reveal_strlit(">");
        reveal_strlit(" fill='none' stroke-linecap='square'/><path d='M200 30 Q258 30 258 65 Q258 100 200 100' stroke='currentColor' stroke-width='");
        assert("><path d='M200 30 L200 150' stroke='currentColor' stroke-width='"@ =~= ">"@ + "<path d='M200 30 L200 150' stroke='currentColor' stroke-width='"@);
        assert("' fill='none' stroke-linecap='square'/><path d='M200 30 Q258 30 258 65 Q258 100 200 100' stroke='currentColor' stroke-width='"@ =~= "'"@ + " fill='none' stroke-linecap='square'/><path d='M200 30 Q258 30 258 65 Q258 100 200 100' stroke='currentColor' stroke-width='"@);
        let g = p.spec_outline(GlyphKind::B);
        assert(g =~= "<g class='be-B'"@ + p.spec_shear_transform() + "><path d='M200 30 L200 150' stroke='currentColor' stroke-width='"@ + p.stem@ + "' fill='none' stroke-linecap='square'/><path d='M200 30 Q258 30 258 65 Q258 100 200 100' stroke='currentColor' stroke-width='"@ + p.serif@ + "' fill='none'/><path d='M200 100 Q268 100 268 125 Q268 150 200 150' stroke='currentColor' stroke-width='"@ + p.serif@ + "' fill='none'/><path d='M195 30 L205 30 M195 150 L205 150' stroke='currentColor' stroke-width='"@ + p.serif@ + "' fill='none'/></g>"@);
        assert(g =~= ("<g class='be-B'"@ + p.spec_shear_transform() + ">"@) + ("<path d='M200 30 L200 150' stroke='currentColor' stroke-width='"@ + p.stem@ + "'"@) + (" fill='none' stroke-linecap='square'/><path d='M200 30 Q258 30 258 65 Q258 100 200 100' stroke='currentColor' stroke-width='"@ + p.serif@ + "' fill='none'/><path d='M200 100 Q268 100 268 125 Q268 150 200 150' stroke='currentColor' stroke-width='"@ + p.serif@ + "' fill='none'/><path d='M195 30 L205 30 M195 150 L205 150' stroke='currentColor' stroke-width='"@ + p.serif@ + "' fill='none'/></g>"@));
        lemma_infix(("<g class='be-B'"@ + p.spec_shear_transform() + ">"@), "<path d='M200 30 L200 150' stroke='currentColor' stroke-width='"@ + p.stem@ + "'"@, " fill='none' stroke-linecap='square'/><path d='M200 30 Q258 30 258 65 Q258 100 200 100' stroke='currentColor' stroke-width='"@ + p.serif@ + "' fill='none'/><path d='M200 100 Q268 100 268 125 Q268 150 200 150' stroke='currentColor' stroke-width='"@ + p.serif@ + "' fill='none'/><path d='M195 30 L205 30 M195 150 L205 150' stroke='currentColor' stroke-width='"@ + p.serif@ + "' fill='none'/></g>"@);
    }
    assert(contains_text(p.spec_outline(GlyphKind::B), "<path d='M200 30 Q258 30 258 65 Q258 100 200 100' stroke='currentColor' stroke-width='"@ + p.serif@ + "'"@)) by {
        reveal_strlit("' fill='none' stroke-linecap='square'/><path d='M200 30 Q258 30 258 65 Q258 100 200 100' stroke='currentColor' stroke-width='");
        reveal_strlit("<path d='M200 30 Q258 30 258 65 Q258 100 200 100' stroke='currentColor' stroke-width='");
        reveal_strlit("' fill='none'/><path d='M200 100 Q268 100 268 125 Q268 150 200 150' stroke='currentColor' stroke-width='");
        reveal_strlit("'");
        reveal_strlit("' fill='none' stroke-linecap='square'/>");
        reveal_strlit(" fill='none'/><path d='M200 100 Q268 100 268 125 Q268 150 200 150' stroke='currentColor' stroke-width='");
        assert("' fill='none' stroke-linecap='square'/><path d='M200 30 Q258 30 258 65 Q258 100 200 100' stroke='currentColor' stroke-width='"@ =~= "' fill='none' stroke-linecap='square'/>"@ + "<path d='M200 30 Q258 30 258 65 Q258 100 200 100' stroke='currentColor' stroke-width='"@);
        assert("' fill='none'/><path d='M200 100 Q268 100 268 125 Q268 150 200 150' stroke='currentColor' stroke-width='"@ =~= "'"@ + " fill='none'/><path d='M200 100 Q268 100 268 125 Q268 150 200 150' stroke='currentColor' stroke-width='"@);
        let g = p.spec_outline(GlyphKind::B);
        assert(g =~= "<g class='be-B'"@ + p.spec_shear_transform() + "><path d='M200 30 L200 150' stroke='currentColor' stroke-width='"@ + p.stem@ + "' fill='none' stroke-linecap='square'/><path d='M200 30 Q258 30 258 65 Q258 100 200 100' stroke='currentColor' stroke-width='"@ + p.serif@ + "' fill='none'/><path d='M200 100 Q268 100 268 125 Q268 150 200 150' stroke='currentColor' stroke-width='"@ + p.serif@ + "' fill='none'/><path d='M195 30 L205 30 M195 150 L205 150' stroke='currentColor' stroke-width='"@ + p.serif@ + "' fill='none'/></g>"@);
        assert(g =~= ("<g class='be-B'"@ + p.spec_shear_transform() + "><path d='M200 30 L200 150' stroke='currentColor' stroke-width='"@ + p.stem@ + "' fill='none' stroke-linecap='square'/>"@) + ("<path d='M200 30 Q258 30 258 65 Q258 100 200 100' stroke='currentColor' stroke-width='"@ + p.serif@ + "'"@) + (" fill='none'/><path d='M200 100 Q268 100 268 125 Q268 150 200 150' stroke='currentColor' stroke-width='"@ + p.serif@ + "' fill='none'/><path d='M195 30 L205 30 M195 150 L205 150' stroke='currentColor' stroke-width='"@ + p.serif@ + "' fill='none'/></g>"@));
        lemma_infix(("<g class='be-B'"@ + p.spec_shear_transform() + "><path d='M200 30 L200 150' stroke='currentColor' stroke-width='"@ + p.stem@ + "' fill='none' stroke-linecap='square'/>"@), "<path d='M200 30 Q258 30 258 65 Q258 100 200 100' stroke='currentColor' stroke-width='"@ + p.serif@ + "'"@, " fill='none'/><path d='M200 100 Q268 100 268 125 Q268 150 200 150' stroke='currentColor' stroke-width='"@ + p.serif@ + "' fill='none'/><path d='M195 30 L205 30 M195 150 L205 150' stroke='currentColor' stroke-width='"@ + p.serif@ + "' fill='none'/></g>"@);
    }
    assert(contains_text(p.spec_outline(GlyphKind::B), "<path d='M200 100 Q268 100 268 125 Q268 150 200 150' stroke='currentColor' stroke-width='"@ + p.serif@ + "'"@)) by {
        reveal_strlit("' fill='none'/><path d='M200 100 Q268 100 268 125 Q268 150 200 150' stroke='currentColor' stroke-width='");
        reveal_strlit("<path d='M200 100 Q268 100 268 125 Q268 150 200 150' stroke='currentColor' stroke-width='");
        reveal_strlit("' fill='none'/><path d='M195 30 L205 30 M195 150 L205 150' stroke='currentColor' stroke-width='");
        reveal_strlit("'");
        reveal_strlit("' fill='none'/>");
        reveal_strlit(" fill='none'/><path d='M195 30 L205 30 M195 150 L205 150' stroke='currentColor' stroke-width='");
        assert("' fill='none'/><path d='M200 100 Q268 100 268 125 Q268 150 200 150' stroke='currentColor' stroke-width='"@ =~= "' fill='none'/>"@ + "<path d='M200 100 Q268 100 268 125 Q268 150 200 150' stroke='currentColor' stroke-width='"@);
        assert("' fill='none'/><path d='M195 30 L205 30 M195 150 L205 150' stroke='currentColor' stroke-width='"@ =~= "'"@ + " fill='none'/><path d='M195 30 L205 30 M195 150 L205 150' stroke='currentColor' stroke-width='"@);
        let g = p.spec_outline(GlyphKind::B);
        assert(g =~= "<g class='be-B'"@ + p.spec_shear_transform() + "><path d='M200 30 L200 150' stroke='currentColor' stroke-width='"@ + p.stem@ + "' fill='none' stroke-linecap='square'/><path d='M200 30 Q258 30 258 65 Q258 100 200 100' stroke='currentColor' stroke-width='"@ + p.serif@ + "' fill='none'/><path d='M200 100 Q268 100 268 125 Q268 150 200 150' stroke='currentColor' stroke-width='"@ + p.serif@ + "' fill='none'/><path d='M195 30 L205 30 M195 150 L205 150' stroke='currentColor' stroke-width='"@ + p.serif@ + "' fill='none'/></g>"@);
        assert(g =~= ("<g class='be-B'"@ + p.spec_shear_transform() + "><path d='M200 30 L200 150' stroke='currentColor' stroke-width='"@ + p.stem@ + "' fill='none' stroke-linecap='square'/><path d='M200 30 Q258 30 258 65 Q258 100 200 100' stroke='currentColor' stroke-width='"@ + p.serif@ + "' fill='none'/>"@) + ("<path d='M200 100 Q268 100 268 125 Q268 150 200 150' stroke='currentColor' stroke-width='"@ + p.serif@ + "'"@) + (" fill='none'/><path d='M195 30 L205 30 M195 150 L205 150' stroke='currentColor' stroke-width='"@ + p.serif@ + "' fill='none'/></g>"@));
        lemma_infix(("<g class='be-B'"@ + p.spec_shear_transform() + "><path d='M200 30 L200 150' stroke='currentColor' stroke-width='"@ + p.stem@ + "' fill='none' stroke-linecap='square'/><path d='M200 30 Q258 30 258 65 Q258 100 200 100' stroke='currentColor' stroke-width='"@ + p.serif@ + "' fill='none'/>"@), "<path d='M200 100 Q268 100 268 125 Q268 150 200 150' stroke='currentColor' stroke-width='"@ + p.serif@ + "'"@, " fill='none'/><path d='M195 30 L205 30 M195 150 L205 150' stroke='currentColor' stroke-width='"@ + p.serif@ + "' fill='none'/></g>"@);
    }
    assert(contains_text(p.spec_outline(GlyphKind::B), "<path d='M195 30 L205 30 M195 150 L205 150' stroke='currentColor' stroke-width='"@ + p.serif@ + "'"@)) by {
        reveal_strlit("' fill='none'/><path d='M195 30 L205 30 M195 150 L205 150' stroke='currentColor' stroke-width='");
        reveal_strlit("<path d='M195 30 L205 30 M195 150 L205 150' stroke='currentColor' stroke-width='");
        reveal_strlit("' fill='none'/></g>");
        reveal_strlit("'");
        reveal_strlit("' fill='none'/>");
        reveal_strlit(" fill='none'/></g>");
        assert("' fill='none'/><path d='M195 30 L205 30 M195 150 L205 150' stroke='currentColor' stroke-width='"@ =~= "' fill='none'/>"@ + "<path d='M195 30 L205 30 M195 150 L205 150' stroke='currentColor' stroke-width='"@);
        assert("' fill='none'/></g>"@ =~= "'"@ + " fill='none'/></g>"@);
        let g = p.spec_outline(GlyphKind::B);
        assert(g =~= "<g class='be-B'"@ + p.spec_shear_transform() + "><path d='M200 30 L200 150' stroke='currentColor' stroke-width='"@ + p.stem@ + "' fill='none' stroke-linecap='square'/><path d='M200 30 Q258 30 258 65 Q258 100 200 100' stroke='currentColor' stroke-width='"@ + p.serif@ + "' fill='none'/><path d='M200 100 Q268 100 268 125 Q268 150 200 150' stroke='currentColor' stroke-width='"@ + p.serif@ + "' fill='none'/><path d='M195 30 L205 30 M195 150 L205 150' stroke='currentColor' stroke-width='"@ + p.serif@ + "' fill='none'/></g>"@);
        assert(g =~= ("<g class='be-B'"@ + p.spec_shear_transform() + "><path d='M200 30 L200 150' stroke='currentColor' stroke-width='"@ + p.stem@ + "' fill='none' stroke-linecap='square'/><path d='M200 30 Q258 30 258 65 Q258 100 200 100' stroke='currentColor' stroke-width='"@ + p.serif@ + "' fill='none'/><path d='M200 100 Q268 100 268 125 Q268 150 200 150' stroke='currentColor' stroke-width='"@ + p.serif@ + "' fill='none'/>"@) + ("<path d='M195 30 L205 30 M195 150 L205 150' stroke='currentColor' stroke-width='"@ + p.serif@ + "'"@) + (" fill='none'/></g>"@));
        lemma_infix(("<g class='be-B'"@ + p.spec_shear_transform() + "><path d='M200 30 L200 150' stroke='currentColor' stroke-width='"@ + p.stem@ + "' fill='none' stroke-linecap='square'/><path d='M200 30 Q258 30 258 65 Q258 100 200 100' stroke='currentColor' stroke-width='"@ + p.serif@ + "' fill='none'/><path d='M200 100 Q268 100 268 125 Q268 150 200 150' stroke='currentColor' stroke-width='"@ + p.serif@ + "' fill='none'/>"@), "<path d='M195 30 L205 30 M195 150 L205 150' stroke='currentColor' stroke-width='"@ + p.serif@ + "'"@, " fill='none'/></g>"@);
    }
}

/// The outline of `C` is a group carrying the shear, with three paths: the
/// curve at the serif width, the stem at the stem width and the serifs at the
/// serif width.
#[verifier::spinoff_prover]
#[verifier::rlimit(100)]
pub proof fn lemma_glyph_c_strokes(p: FontParams)
    ensures
        contains_text(p.spec_outline(GlyphKind::C), "<g class='be-C'"@ + p.spec_shear_transform() + ">"@),
        contains_text(p.spec_outline(GlyphKind::C), "<path d='M400 70 Q394 30 355 30 Q308 30 308 90 Q308 150 355 150 Q394 150 400 115' stroke='currentColor' stroke-width='"@ + p.serif@ + "'"@),
        contains_text(p.spec_outline(GlyphKind::C), "<path d='M308 58 L308 122' stroke='currentColor' stroke-width='"@ + p.stem@ + "'"@),
        contains_text(p.spec_outline(GlyphKind::C), "<path d='M390 70 L412 70 M390 115 L412 115' stroke='currentColor' stroke-width='"@ + p.serif@ + "'"@),
{
    assert(contains_text(p.spec_outline(GlyphKind::C), "<g class='be-C'"@ + p.spec_shear_transform() + ">"@)) by {
        reveal_strlit("<g class='be-C'");
        reveal_strlit("><path d='M400 70 Q394 30 355 30 Q308 30 308 90 Q308 150 355 150 Q394 150 400 115' stroke='currentColor' stroke-width='");
        reveal_strlit(">");
        reveal_strlit("<path d='M400 70 Q394 30 355 30 Q308 30 308 90 Q308 150 355 150 Q394 150 400 115' stroke='currentColor' stroke-width='");
        assert("><path d='M400 70 Q394 30 355 30 Q308 30 308 90 Q308 150 355 150 Q394 150 400 115' stroke='currentColor' stroke-width='"@ =~= ">"@ + "<path d='M400 70 Q394 30 355 30 Q308 30 308 90 Q308 150 355 150 Q394 150 400 115' stroke='currentColor' stroke-width='"@);
        let g = p.spec_outline(GlyphKind::C);
        assert(g =~= Seq::<char>::empty() + "<g class='be-C'"@ + p.spec_shear_transform() + "><path d='M400 70 Q394 30 355 30 Q308 30 308 90 Q308 150 355 150 Q394 150 400 115' stroke='currentColor' stroke-width='"@ + p.serif@ + "' fill='none'/><path d='M308 58 L308 122' stroke='currentColor' stroke-width='"@ + p.stem@ + "' fill='none' stroke-linecap='square'/><path d='M390 70 L412 70 M390 115 L412 115' stroke='currentColor' stroke-width='"@ + p.serif@ + "' fill='none'/></g>"@);
        assert(g =~= (Seq::<char>::empty()) + ("<g class='be-C'"@ + p.spec_shear_transform() + ">"@) + ("<path d='M400 70 Q394 30 355 30 Q308 30 308 90 Q308 150 355 150 Q394 150 400 115' stroke='currentColor' stroke-width='"@ + p.serif@ + "' fill='none'/><path d='M308 58 L308 122' stroke='currentColor' stroke-width='"@ + p.stem@ + "' fill='none' stroke-linecap='square'/><path d='M390 70 L412 70 M390 115 L412 115' stroke='currentColor' stroke-width='"@ + p.serif@ + "' fill='none'/></g>"@));
        lemma_infix((Seq::<char>::empty()), "<g class='be-C'"@ + p.spec_shear_transform() + ">"@, "<path d='M400 70 Q394 30 355 30 Q308 30 308 90 Q308 150 355 150 Q394 150 400 115' stroke='currentColor' stroke-width='"@ + p.serif@ + "' fill='none'/><path d='M308 58 L308 122' stroke='currentColor' stroke-width='"@ + p.stem@ + "' fill='none' stroke-linecap='square'/><path d='M390 70 L412 70 M390 115 L412 115' stroke='currentColor' stroke-width='"@ + p.serif@ + "' fill='none'/></g>"@);
    }
    assert(contains_text(p.spec_outline(GlyphKind::C), "<path d='M400 70 Q394 30 355 30 Q308 30 308 90 Q308 150 355 150 Q394 150 400 115' stroke='currentColor' stroke-width='"@ + p.serif@ + "'"@)) by {
        reveal_strlit("><path d='M400 70 Q394 30 355 30 Q308 30 308 90 Q308 150 355 150 Q394 150 400 115' stroke='currentColor' stroke-width='");
        reveal_strlit("<path d='M400 70 Q394 30 355 30 Q308 30 308 90 Q308 150 355 150 Q394 150 400 115' stroke='currentColor' stroke-width='");
        reveal_strlit("' fill='none'/><path d='M308 58 L308 122' stroke='currentColor' stroke-width='");
        reveal_strlit("'");
        reveal_strlit(">");
        reveal_strlit(" fill='none'/><path d='M308 58 L308 122' stroke='currentColor' stroke-width='");
        assert("><path d='M400 70 Q394 30 355 30 Q308 30 308 90 Q308 150 355 150 Q394 150 400 115' stroke='currentColor' stroke-width='"@ =~= ">"@ + "<path d='M400 70 Q394 30 355 30 Q308 30 308 90 Q308 150 355 150 Q394 150 400 115' stroke='currentColor' stroke-width='"@);
        assert("' fill='none'/><path d='M308 58 L308 122' stroke='currentColor' stroke-width='"@ =~= "'"@ + " fill='none'/><path d='M308 58 L308 122' stroke='currentColor' stroke-width='"@);
        let g = p.spec_outline(GlyphKind::C);
        assert(g =~= "<g class='be-C'"@ + p.spec_shear_transform() + "><path d='M400 70 Q394 30 355 30 Q308 30 308 90 Q308 150 355 150 Q394 150 400 115' stroke='currentColor' stroke-width='"@ + p.serif@ + "' fill='none'/><path d='M308 58 L308 122' stroke='currentColor' stroke-width='"@ + p.stem@ + "' fill='none' stroke-linecap='square'/><path d='M390 70 L412 70 M390 115 L412 115' stroke='currentColor' stroke-width='"@ + p.serif@ + "' fill='none'/></g>"@);
        assert(g =~= ("<g class='be-C'"@ + p.spec_shear_transform() + ">"@) + ("<path d='M400 70 Q394 30 355 30 Q308 30 308 90 Q308 150 355 150 Q394 150 400 115' stroke='currentColor' stroke-width='"@ + p.serif@ + "'"@) + (" fill='none'/><path d='M308 58 L308 122' stroke='currentColor' stroke-width='"@ + p.stem@ + "' fill='none' stroke-linecap='square'/><path d='M390 70 L412 70 M390 115 L412 115' stroke='currentColor' stroke-width='"@ + p.serif@ + "' fill='none'/></g>"@));
        lemma_infix(("<g class='be-C'"@ + p.spec_shear_transform() + ">"@), "<path d='M400 70 Q394 30 355 30 Q308 30 308 90 Q308 150 355 150 Q394 150 400 115' stroke='currentColor' stroke-width='"@ + p.serif@ + "'"@, " fill='none'/><path d='M308 58 L308 122' stroke='currentColor' stroke-width='"@ + p.stem@ + "' fill='none' stroke-linecap='square'/><path d='M390 70 L412 70 M390 115 L412 115' stroke='currentColor' stroke-width='"@ + p.serif@ + "' fill='none'/></g>"@);
    }
    assert(contains_text(p.spec_outline(GlyphKind::C), "<path d='M308 58 L308 122' stroke='currentColor' stroke-width='"@ + p.stem@ + "'"@)) by {
        reveal_strlit("' fill='none'/><path d='M308 58 L308 122' stroke='currentColor' stroke-width='");
        reveal_strlit("<path d='M308 58 L308 122' stroke='currentColor' stroke-width='");
        reveal_strlit("' fill='none' stroke-linecap='square'/><path d='M390 70 L412 70 M390 115 L412 115' stroke='currentColor' stroke-width='");
        reveal_strlit("'");
        reveal_strlit("' fill='none'/>");
        reveal_strlit(" fill='none' stroke-linecap='square'/><path d='M390 70 L412 70 M390 115 L412 115' stroke='currentColor' stroke-width='");
        assert("' fill='none'/><path d='M308 58 L308 122' stroke='currentColor' stroke-width='"@ =~= "' fill='none'/>"@ + "<path d='M308 58 L308 122' stroke='currentColor' stroke-width='"@);
        assert("' fill='none' stroke-linecap='square'/><path d='M390 70 L412 70 M390 115 L412 115' stroke='currentColor' stroke-width='"@ =~= "'"@ + " fill='none' stroke-linecap='square'/><path d='M390 70 L412 70 M390 115 L412 115' stroke='currentColor' stroke-width='"@);
        let g = p.spec_outline(GlyphKind::C);
        assert(g =~= "<g class='be-C'"@ + p.spec_shear_transform() + "><path d='M400 70 Q394 30 355 30 Q308 30 308 90 Q308 150 355 150 Q394 150 400 115' stroke='currentColor' stroke-width='"@ + p.serif@ + "' fill='none'/><path d='M308 58 L308 122' stroke='currentColor' stroke-width='"@ + p.stem@ + "' fill='none' stroke-linecap='square'/><path d='M390 70 L412 70 M390 115 L412 115' stroke='currentColor' stroke-width='"@ + p.serif@ + "' fill='none'/></g>"@);
        assert(g =~= ("<g class='be-C'"@ + p.spec_shear_transform() + "><path d='M400 70 Q394 30 355 30 Q308 30 308 90 Q308 150 355 150 Q394 150 400 115' stroke='currentColor' stroke-width='"@ + p.serif@ + "' fill='none'/>"@) + ("<path d='M308 58 L308 122' stroke='currentColor' stroke-width='"@ + p.stem@ + "'"@) + (" fill='none' stroke-linecap='square'/><path d='M390 70 L412 70 M390 115 L412 115' stroke='currentColor' stroke-width='"@ + p.serif@ + "' fill='none'/></g>"@));
        lemma_infix(("<g class='be-C'"@ + p.spec_shear_transform() + "><path d='M400 70 Q394 30 355 30 Q308 30 308 90 Q308 150 355 150 Q394 150 400 115' stroke='currentColor' stroke-width='"@ + p.serif@ + "' fill='none'/>"@), "<path d='M308 58 L308 122' stroke='currentColor' stroke-width='"@ + p.stem@ + "'"@, " fill='none' stroke-linecap='square'/><path d='M390 70 L412 70 M390 115 L412 115' stroke='currentColor' stroke-width='"@ + p.serif@ + "' fill='none'/></g>"@);
    }
    assert(contains_text(p.spec_outline(GlyphKind::C), "<path d='M390 70 L412 70 M390 115 L412 115' stroke='currentColor' stroke-width='"@ + p.serif@ + "'"@)) by {
        reveal_strlit("' fill='none' stroke-linecap='square'/><path d='M390 70 L412 70 M390 115 L412 115' stroke='currentColor' stroke-width='");
        reveal_strlit("<path d='M390 70 L412 70 M390 115 L412 115' stroke='currentColor' stroke-width='");
        reveal_strlit("' fill='none'/></g>");
        reveal_strlit("'");
        reveal_strlit("' fill='none' stroke-linecap='square'/>");
        reveal_strlit(" fill='none'/></g>");
        assert("' fill='none' stroke-linecap='square'/><path d='M390 70 L412 70 M390 115 L412 115' stroke='currentColor' stroke-width='"@ =~= "' fill='none' stroke-linecap='square'/>"@ + "<path d='M390 70 L412 70 M390 115 L412 115' stroke='currentColor' stroke-width='"@);
        assert("' fill='none'/></g>"@ =~= "'"@ + " fill='none'/></g>"@);
        let g = p.spec_outline(GlyphKind::C);
        assert(g =~= "<g class='be-C'"@ + p.spec_shear_transform() + "><path d='M400 70 Q394 30 355 30 Q308 30 308 90 Q308 150 355 150 Q394 150 400 115' stroke='currentColor' stroke-width='"@ + p.serif@ + "' fill='none'/><path d='M308 58 L308 122' stroke='currentColor' stroke-width='"@ + p.stem@ + "' fill='none' stroke-linecap='square'/><path d='M390 70 L412 70 M390 115 L412 115' stroke='currentColor' stroke-width='"@ + p.serif@ + "' fill='none'/></g>"@);
        assert(g =~= ("<g class='be-C'"@ + p.spec_shear_transform() + "><path d='M400 70 Q394 30 355 30 Q308 30 308 90 Q308 150 355 150 Q394 150 400 115' stroke='currentColor' stroke-width='"@ + p.serif@ + "' fill='none'/><path d='M308 58 L308 122' stroke='currentColor' stroke-width='"@ + p.stem@ + "' fill='none' stroke-linecap='square'/>"@) + ("<path d='M390 70 L412 70 M390 115 L412 115' stroke='currentColor' stroke-width='"@ + p.serif@ + "'"@) + (" fill='none'/></g>"@));
        lemma_infix(("<g class='be-C'"@ + p.spec_shear_transform() + "><path d='M400 70 Q394 30 355 30 Q308 30 308 90 Q308 150 355 150 Q394 150 400 115' stroke='currentColor' stroke-width='"@ + p.serif@ + "' fill='none'/><path d='M308 58 L308 122' stroke='currentColor' stroke-width='"@ + p.stem@ + "' fill='none' stroke-linecap='square'/>"@), "<path d='M390 70 L412 70 M390 115 L412 115' stroke='currentColor' stroke-width='"@ + p.serif@ + "'"@, " fill='none'/></g>"@);
    }
}

/// The outline of `O` is a group carrying the shear, with the ellipse at the
/// serif width and the dashed stem arc (dash 150.8) at the stem width.
#[verifier::spinoff_prover]
#[verifier::rlimit(100)]
pub proof fn lemma_glyph_o_strokes(p: FontParams)
    ensures
        contains_text(p.spec_outline(GlyphKind::O), "<g class='be-O'"@ + p.spec_shear_transform() + ">"@),
        contains_text(p.spec_outline(GlyphKind::O), "<ellipse cx='520' cy='90' rx='40' ry='48' stroke='currentColor' stroke-width='"@ + p.serif@ + "'"@),
        contains_text(p.spec_outline(GlyphKind::O), "<path d='M480 90 A40 48 0 0 1 560 90 A40 48 0 0 1 480 90' stroke='currentColor' stroke-width='"@ + p.stem@ + "' fill='none' stroke-dasharray='150.8 150.8'/>"@),
{
    assert(contains_text(p.spec_outline(GlyphKind::O), "<g class='be-O'"@ + p.spec_shear_transform() + ">"@)) by {
        reveal_strlit("<g class='be-O'");
        reveal_strlit("><ellipse cx='520' cy='90' rx='40' ry='48' stroke='currentColor' stroke-width='");
        reveal_strlit(">");
        reveal_strlit("<ellipse cx='520' cy='90' rx='40' ry='48' stroke='currentColor' stroke-width='");
        assert("><ellipse cx='520' cy='90' rx='40' ry='48' stroke='currentColor' stroke-width='"@ =~= ">"@ + "<ellipse cx='520' cy='90' rx='40' ry='48' stroke='currentColor' stroke-width='"@);
        let g = p.spec_outline(GlyphKind::O);
        assert(g =~= Seq::<char>::empty() + "<g class='be-O'"@ + p.spec_shear_transform() + "><ellipse cx='520' cy='90' rx='40' ry='48' stroke='currentColor' stroke-width='"@ + p.serif@ + "' fill='none'/><path d='M480 90 A40 48 0 0 1 560 90 A40 48 0 0 1 480 90' stroke='currentColor' stroke-width='"@ + p.stem@ + "' fill='none' stroke-dasharray='150.8 150.8'/></g>"@);
        assert(g =~= (Seq::<char>::empty()) + ("<g class='be-O'"@ + p.spec_shear_transform() + ">"@) + ("<ellipse cx='520' cy='90' rx='40' ry='48' stroke='currentColor' stroke-width='"@ + p.serif@ + "' fill='none'/><path d='M480 90 A40 48 0 0 1 560 90 A40 48 0 0 1 480 90' stroke='currentColor' stroke-width='"@ + p.stem@ + "' fill='none' stroke-dasharray='150.8 150.8'/></g>"@));
        lemma_infix((Seq::<char>::empty()), "<g class='be-O'"@ + p.spec_shear_transform() + ">"@, "<ellipse cx='520' cy='90' rx='40' ry='48' stroke='currentColor' stroke-width='"@ + p.serif@ + "' fill='none'/><path d='M480 90 A40 48 0 0 1 560 90 A40 48 0 0 1 480 90' stroke='currentColor' stroke-width='"@ + p.stem@ + "' fill='none' stroke-dasharray='150.8 150.8'/></g>"@);
    }
    assert(contains_text(p.spec_outline(GlyphKind::O), "<ellipse cx='520' cy='90' rx='40' ry='48' stroke='currentColor' stroke-width='"@ + p.serif@ + "'"@)) by {
        reveal_strlit("><ellipse cx='520' cy='90' rx='40' ry='48' stroke='currentColor' stroke-width='");
        reveal_strlit("<ellipse cx='520' cy='90' rx='40' ry='48' stroke='currentColor' stroke-width='");
        reveal_strlit("' fill='none'/><path d='M480 90 A40 48 0 0 1 560 90 A40 48 0 0 1 480 90' stroke='currentColor' stroke-width='");
        reveal_strlit("'");
        reveal_strlit(">");
        reveal_strlit(" fill='none'/><path d='M480 90 A40 48 0 0 1 560 90 A40 48 0 0 1 480 90' stroke='currentColor' stroke-width='");
        assert("><ellipse cx='520' cy='90' rx='40' ry='48' stroke='currentColor' stroke-width='"@ =~= ">"@ + "<ellipse cx='520' cy='90' rx='40' ry='48' stroke='currentColor' stroke-width='"@);
        assert("' fill='none'/><path d='M480 90 A40 48 0 0 1 560 90 A40 48 0 0 1 480 90' stroke='currentColor' stroke-width='"@ =~= "'"@ + " fill='none'/><path d='M480 90 A40 48 0 0 1 560 90 A40 48 0 0 1 480 90' stroke='currentColor' stroke-width='"@);
        let g = p.spec_outline(GlyphKind::O);
        assert(g =~= "<g class='be-O'"@ + p.spec_shear_transform() + "><ellipse cx='520' cy='90' rx='40' ry='48' stroke='currentColor' stroke-width='"@ + p.serif@ + "' fill='none'/><path d='M480 90 A40 48 0 0 1 560 90 A40 48 0 0 1 480 90' stroke='currentColor' stroke-width='"@ + p.stem@ + "' fill='none' stroke-dasharray='150.8 150.8'/></g>"@);
        assert(g =~= ("<g class='be-O'"@ + p.spec_shear_transform() + ">"@) + ("<ellipse cx='520' cy='90' rx='40' ry='48' stroke='currentColor' stroke-width='"@ + p.serif@ + "'"@) + (" fill='none'/><path d='M480 90 A40 48 0 0 1 560 90 A40 48 0 0 1 480 90' stroke='currentColor' stroke-width='"@ + p.stem@ + "' fill='none' stroke-dasharray='150.8 150.8'/></g>"@));
        lemma_infix(("<g class='be-O'"@ + p.spec_shear_transform() + ">"@), "<ellipse cx='520' cy='90' rx='40' ry='48' stroke='currentColor' stroke-width='"@ + p.serif@ + "'"@, " fill='none'/><path d='M480 90 A40 48 0 0 1 560 90 A40 48 0 0 1 480 90' stroke='currentColor' stroke-width='"@ + p.stem@ + "' fill='none' stroke-dasharray='150.8 150.8'/></g>"@);
    }
    assert(contains_text(p.spec_outline(GlyphKind::O), "<path d='M480 90 A40 48 0 0 1 560 90 A40 48 0 0 1 480 90' stroke='currentColor' stroke-width='"@ + p.stem@ + "' fill='none' stroke-dasharray='150.8 150.8'/>"@)) by {
        reveal_strlit("' fill='none'/><path d='M480 90 A40 48 0 0 1 560 90 A40 48 0 0 1 480 90' stroke='currentColor' stroke-width='");
        reveal_strlit("<path d='M480 90 A40 48 0 0 1 560 90 A40 48 0 0 1 480 90' stroke='currentColor' stroke-width='");
        reveal_strlit("' fill='none' stroke-dasharray='150.8 150.8'/></g>");
        reveal_strlit("' fill='none' stroke-dasharray='150.8 150.8'/>");
        reveal_strlit("' fill='none'/>");
        reveal_strlit("</g>");
        assert("' fill='none'/><path d='M480 90 A40 48 0 0 1 560 90 A40 48 0 0 1 480 90' stroke='currentColor' stroke-width='"@ =~= "' fill='none'/>"@ + "<path d='M480 90 A40 48 0 0 1 560 90 A40 48 0 0 1 480 90' stroke='currentColor' stroke-width='"@);
        assert("' fill='none' stroke-dasharray='150.8 150.8'/></g>"@ =~= "' fill='none' stroke-dasharray='150.8 150.8'/>"@ + "</g>"@);
        let g = p.spec_outline(GlyphKind::O);
        assert(g =~= "<g class='be-O'"@ + p.spec_shear_transform() + "><ellipse cx='520' cy='90' rx='40' ry='48' stroke='currentColor' stroke-width='"@ + p.serif@ + "' fill='none'/><path d='M480 90 A40 48 0 0 1 560 90 A40 48 0 0 1 480 90' stroke='currentColor' stroke-width='"@ + p.stem@ + "' fill='none' stroke-dasharray='150.8 150.8'/></g>"@);
        assert(g =~= ("<g class='be-O'"@ + p.spec_shear_transform() + "><ellipse cx='520' cy='90' rx='40' ry='48' stroke='currentColor' stroke-width='"@ + p.serif@ + "' fill='none'/>"@) + ("<path d='M480 90 A40 48 0 0 1 560 90 A40 48 0 0 1 480 90' stroke='currentColor' stroke-width='"@ + p.stem@ + "' fill='none' stroke-dasharray='150.8 150.8'/>"@) + ("</g>"@));
        lemma_infix(("<g class='be-O'"@ + p.spec_shear_transform() + "><ellipse cx='520' cy='90' rx='40' ry='48' stroke='currentColor' stroke-width='"@ + p.serif@ + "' fill='none'/>"@), "<path d='M480 90 A40 48 0 0 1 560 90 A40 48 0 0 1 480 90' stroke='currentColor' stroke-width='"@ + p.stem@ + "' fill='none' stroke-dasharray='150.8 150.8'/>"@, "</g>"@);
    }
}

/// Each key of the parameter record is followed by its own value and then by a
/// comma (or the closing brace): the stem width under `stem_width`, the fine
/// serif width under `serif_width`, the contrast ratio under `contrast_ratio`,
/// the tracking under `tracking_em`, the shear in degrees under `shear_deg`, the
/// weight under `weight_multiplier` and the license tier under `is_premium`.
#[verifier::spinoff_prover]
#[verifier::rlimit(100)]
pub proof fn lemma_params_json_fields(p: FontParams)
    ensures
        contains_text(p.spec_params_json(), "\"stem_width\":"@ + p.stem@ + ","@),
        contains_text(p.spec_params_json(), "\"serif_width\":"@ + p.serif_fine@ + ","@),
        contains_text(p.spec_params_json(), "\"contrast_ratio\":"@ + p.contrast_ratio@ + ","@),
        contains_text(p.spec_params_json(), "\"tracking_em\":"@ + p.tracking_em@ + ","@),
        contains_text(p.spec_params_json(), "\"shear_deg\":"@ + p.shear_deg@ + ","@),
        contains_text(p.spec_params_json(), "\"weight_multiplier\":"@ + p.weight_multiplier@ + ","@),
        contains_text(p.spec_params_json(), "\"is_premium\":"@ + bool_text(p.is_premium) + "}"@),
{
    assert(contains_text(p.spec_params_json(), "\"stem_width\":"@ + p.stem@ + ","@)) by {
        reveal_strlit("{\"baseline\":\"barcelona_extropic\",\"stem_width\":");
        reveal_strlit("\"stem_width\":");
        reveal_strlit(",\"serif_width\":");
        reveal_strlit(",");
        reveal_strlit("{\"baseline\":\"barcelona_extropic\",");
        reveal_strlit("\"serif_width\":");
        assert("{\"baseline\":\"barcelona_extropic\",\"stem_width\":"@ =~= "{\"baseline\":\"barcelona_extropic\","@ + "\"stem_width\":"@);
        assert(",\"serif_width\":"@ =~= ","@ + "\"serif_width\":"@);
        let g = p.spec_params_json();
        assert(g =~= Seq::<char>::empty() + "{\"baseline\":\"barcelona_extropic\",\"stem_width\":"@ + p.stem@ + ",\"serif_width\":"@ + p.serif_fine@ + ",\"contrast_ratio\":"@ + p.contrast_ratio@ + ",\"tracking_em\":"@ + p.tracking_em@ + ",\"shear_deg\":"@ + p.shear_deg@ + ",\"weight_multiplier\":"@ + p.weight_multiplier@ + ",\"is_premium\":"@ + bool_text(p.is_premium) + "}"@);
        assert(g =~= (Seq::<char>::empty() + "{\"baseline\":\"barcelona_extropic\","@) + ("\"stem_width\":"@ + p.stem@ + ","@) + ("\"serif_width\":"@ + p.serif_fine@ + ",\"contrast_ratio\":"@ + p.contrast_ratio@ + ",\"tracking_em\":"@ + p.tracking_em@ + ",\"shear_deg\":"@ + p.shear_deg@ + ",\"weight_multiplier\":"@ + p.weight_multiplier@ + ",\"is_premium\":"@ + bool_text(p.is_premium) + "}"@));
        lemma_infix((Seq::<char>::empty() + "{\"baseline\":\"barcelona_extropic\","@), "\"stem_width\":"@ + p.stem@ + ","@, "\"serif_width\":"@ + p.serif_fine@ + ",\"contrast_ratio\":"@ + p.contrast_ratio@ + ",\"tracking_em\":"@ + p.tracking_em@ + ",\"shear_deg\":"@ + p.shear_deg@ + ",\"weight_multiplier\":"@ + p.weight_multiplier@ + ",\"is_premium\":"@ + bool_text(p.is_premium) + "}"@);
    }
    assert(contains_text(p.spec_params_json(), "\"serif_width\":"@ + p.serif_fine@ + ","@)) by {
        reveal_strlit(",\"serif_width\":");
        reveal_strlit("\"serif_width\":");
        reveal_strlit(",\"contrast_ratio\":");
        reveal_strlit(",");
        reveal_strlit("\"contrast_ratio\":");
        assert(",\"serif_width\":"@ =~= ","@ + "\"serif_width\":"@);
        assert(",\"contrast_ratio\":"@ =~= ","@ + "\"contrast_ratio\":"@);
        let g = p.spec_params_json();
        assert(g =~= "{\"baseline\":\"barcelona_extropic\",\"stem_width\":"@ + p.stem@ + ",\"serif_width\":"@ + p.serif_fine@ + ",\"contrast_ratio\":"@ + p.contrast_ratio@ + ",\"tracking_em\":"@ + p.tracking_em@ + ",\"shear_deg\":"@ + p.shear_deg@ + ",\"weight_multiplier\":"@ + p.weight_multiplier@ + ",\"is_premium\":"@ + bool_text(p.is_premium) + "}"@);
        assert(g =~= ("{\"baseline\":\"barcelona_extropic\",\"stem_width\":"@ + p.stem@ + ","@) + ("\"serif_width\":"@ + p.serif_fine@ + ","@) + ("\"contrast_ratio\":"@ + p.contrast_ratio@ + ",\"tracking_em\":"@ + p.tracking_em@ + ",\"shear_deg\":"@ + p.shear_deg@ + ",\"weight_multiplier\":"@ + p.weight_multiplier@ + ",\"is_premium\":"@ + bool_text(p.is_premium) + "}"@));
        lemma_infix(("{\"baseline\":\"barcelona_extropic\",\"stem_width\":"@ + p.stem@ + ","@), "\"serif_width\":"@ + p.serif_fine@ + ","@, "\"contrast_ratio\":"@ + p.contrast_ratio@ + ",\"tracking_em\":"@ + p.tracking_em@ + ",\"shear_deg\":"@ + p.shear_deg@ + ",\"weight_multiplier\":"@ + p.weight_multiplier@ + ",\"is_premium\":"@ + bool_text(p.is_premium) + "}"@);
    }
    assert(contains_text(p.spec_params_json(), "\"contrast_ratio\":"@ + p.contrast_ratio@ + ","@)) by {
        reveal_strlit(",\"contrast_ratio\":");
        reveal_strlit("\"contrast_ratio\":");
        reveal_strlit(",\"tracking_em\":");
        reveal_strlit(",");
        reveal_strlit("\"tracking_em\":");
        assert(",\"contrast_ratio\":"@ =~= ","@ + "\"contrast_ratio\":"@);
        assert(",\"tracking_em\":"@ =~= ","@ + "\"tracking_em\":"@);
        let g = p.spec_params_json();
        assert(g =~= "{\"baseline\":\"barcelona_extropic\",\"stem_width\":"@ + p.stem@ + ",\"serif_width\":"@ + p.serif_fine@ + ",\"contrast_ratio\":"@ + p.contrast_ratio@ + ",\"tracking_em\":"@ + p.tracking_em@ + ",\"shear_deg\":"@ + p.shear_deg@ + ",\"weight_multiplier\":"@ + p.weight_multiplier@ + ",\"is_premium\":"@ + bool_text(p.is_premium) + "}"@);
        assert(g =~= ("{\"baseline\":\"barcelona_extropic\",\"stem_width\":"@ + p.stem@ + ",\"serif_width\":"@ + p.serif_fine@ + ","@) + ("\"contrast_ratio\":"@ + p.contrast_ratio@ + ","@) + ("\"tracking_em\":"@ + p.tracking_em@ + ",\"shear_deg\":"@ + p.shear_deg@ + ",\"weight_multiplier\":"@ + p.weight_multiplier@ + ",\"is_premium\":"@ + bool_text(p.is_premium) + "}"@));
        lemma_infix(("{\"baseline\":\"barcelona_extropic\",\"stem_width\":"@ + p.stem@ + ",\"serif_width\":"@ + p.serif_fine@ + ","@), "\"contrast_ratio\":"@ + p.contrast_ratio@ + ","@, "\"tracking_em\":"@ + p.tracking_em@ + ",\"shear_deg\":"@ + p.shear_deg@ + ",\"weight_multiplier\":"@ + p.weight_multiplier@ + ",\"is_premium\":"@ + bool_text(p.is_premium) + "}"@);
    }
    assert(contains_text(p.spec_params_json(), "\"tracking_em\":"@ + p.tracking_em@ + ","@)) by {
        reveal_strlit(",\"tracking_em\":");
        reveal_strlit("\"tracking_em\":");
        reveal_strlit(",\"shear_deg\":");
        reveal_strlit(",");
        reveal_strlit("\"shear_deg\":");
        assert(",\"tracking_em\":"@ =~= ","@ + "\"tracking_em\":"@);
        assert(",\"shear_deg\":"@ =~= ","@ + "\"shear_deg\":"@);
        let g = p.spec_params_json();
        assert(g =~= "{\"baseline\":\"barcelona_extropic\",\"stem_width\":"@ + p.stem@ + ",\"serif_width\":"@ + p.serif_fine@ + ",\"contrast_ratio\":"@ + p.contrast_ratio@ + ",\"tracking_em\":"@ + p.tracking_em@ + ",\"shear_deg\":"@ + p.shear_deg@ + ",\"weight_multiplier\":"@ + p.weight_multiplier@ + ",\"is_premium\":"@ + bool_text(p.is_premium) + "}"@);
        assert(g =~= ("{\"baseline\":\"barcelona_extropic\",\"stem_width\":"@ + p.stem@ + ",\"serif_width\":"@ + p.serif_fine@ + ",\"contrast_ratio\":"@ + p.contrast_ratio@ + ","@) + ("\"tracking_em\":"@ + p.tracking_em@ + ","@) + ("\"shear_deg\":"@ + p.shear_deg@ + ",\"weight_multiplier\":"@ + p.weight_multiplier@ + ",\"is_premium\":"@ + bool_text(p.is_premium) + "}"@));
        lemma_infix(("{\"baseline\":\"barcelona_extropic\",\"stem_width\":"@ + p.stem@ + ",\"serif_width\":"@ + p.serif_fine@ + ",\"contrast_ratio\":"@ + p.contrast_ratio@ + ","@), "\"tracking_em\":"@ + p.tracking_em@ + ","@, "\"shear_deg\":"@ + p.shear_deg@ + ",\"weight_multiplier\":"@ + p.weight_multiplier@ + ",\"is_premium\":"@ + bool_text(p.is_premium) + "}"@);
    }
    assert(contains_text(p.spec_params_json(), "\"shear_deg\":"@ + p.shear_deg@ + ","@)) by {
        reveal_strlit(",\"shear_deg\":");
        reveal_strlit("\"shear_deg\":");
        reveal_strlit(",\"weight_multiplier\":");
        reveal_strlit(",");
        reveal_strlit("\"weight_multiplier\":");
        assert(",\"shear_deg\":"@ =~= ","@ + "\"shear_deg\":"@);
        assert(",\"weight_multiplier\":"@ =~= ","@ + "\"weight_multiplier\":"@);
        let g = p.spec_params_json();
        assert(g =~= "{\"baseline\":\"barcelona_extropic\",\"stem_width\":"@ + p.stem@ + ",\"serif_width\":"@ + p.serif_fine@ + ",\"contrast_ratio\":"@ + p.contrast_ratio@ + ",\"tracking_em\":"@ + p.tracking_em@ + ",\"shear_deg\":"@ + p.shear_deg@ + ",\"weight_multiplier\":"@ + p.weight_multiplier@ + ",\"is_premium\":"@ + bool_text(p.is_premium) + "}"@);
        assert(g =~= ("{\"baseline\":\"barcelona_extropic\",\"stem_width\":"@ + p.stem@ + ",\"serif_width\":"@ + p.serif_fine@ + ",\"contrast_ratio\":"@ + p.contrast_ratio@ + ",\"tracking_em\":"@ + p.tracking_em@ + ","@) + ("\"shear_deg\":"@ + p.shear_deg@ + ","@) + ("\"weight_multiplier\":"@ + p.weight_multiplier@ + ",\"is_premium\":"@ + bool_text(p.is_premium) + "}"@));
        lemma_infix(("{\"baseline\":\"barcelona_extropic\",\"stem_width\":"@ + p.stem@ + ",\"serif_width\":"@ + p.serif_fine@ + ",\"contrast_ratio\":"@ + p.contrast_ratio@ + ",\"tracking_em\":"@ + p.tracking_em@ + ","@), "\"shear_deg\":"@ + p.shear_deg@ + ","@, "\"weight_multiplier\":"@ + p.weight_multiplier@ + ",\"is_premium\":"@ + bool_text(p.is_premium) + "}"@);
    }
    assert(contains_text(p.spec_params_json(), "\"weight_multiplier\":"@ + p.weight_multiplier@ + ","@)) by {
        reveal_strlit(",\"weight_multiplier\":");
        reveal_strlit("\"weight_multiplier\":");
        reveal_strlit(",\"is_premium\":");
        reveal_strlit(",");
        reveal_strlit("\"is_premium\":");
        assert(",\"weight_multiplier\":"@ =~= ","@ + "\"weight_multiplier\":"@);
        assert(",\"is_premium\":"@ =~= ","@ + "\"is_premium\":"@);
        let g = p.spec_params_json();
        assert(g =~= "{\"baseline\":\"barcelona_extropic\",\"stem_width\":"@ + p.stem@ + ",\"serif_width\":"@ + p.serif_fine@ + ",\"contrast_ratio\":"@ + p.contrast_ratio@ + ",\"tracking_em\":"@ + p.tracking_em@ + ",\"shear_deg\":"@ + p.shear_deg@ + ",\"weight_multiplier\":"@ + p.weight_multiplier@ + ",\"is_premium\":"@ + bool_text(p.is_premium) + "}"@);
        assert(g =~= ("{\"baseline\":\"barcelona_extropic\",\"stem_width\":"@ + p.stem@ + ",\"serif_width\":"@ + p.serif_fine@ + ",\"contrast_ratio\":"@ + p.contrast_ratio@ + ",\"tracking_em\":"@ + p.tracking_em@ + ",\"shear_deg\":"@ + p.shear_deg@ + ","@) + ("\"weight_multiplier\":"@ + p.weight_multiplier@ + ","@) + ("\"is_premium\":"@ + bool_text(p.is_premium) + "}"@));
        lemma_infix(("{\"baseline\":\"barcelona_extropic\",\"stem_width\":"@ + p.stem@ + ",\"serif_width\":"@ + p.serif_fine@ + ",\"contrast_ratio\":"@ + p.contrast_ratio@ + ",\"tracking_em\":"@ + p.tracking_em@ + ",\"shear_deg\":"@ + p.shear_deg@ + ","@), "\"weight_multiplier\":"@ + p.weight_multiplier@ + ","@, "\"is_premium\":"@ + bool_text(p.is_premium) + "}"@);
    }
    assert(contains_text(p.spec_params_json(), "\"is_premium\":"@ + bool_text(p.is_premium) + "}"@)) by {
        reveal_strlit(",\"is_premium\":");
        reveal_strlit("\"is_premium\":");
        reveal_strlit("}");
        reveal_strlit(",");
        assert(",\"is_premium\":"@ =~= ","@ + "\"is_premium\":"@);
        let g = p.spec_params_json();
        assert(g =~= "{\"baseline\":\"barcelona_extropic\",\"stem_width\":"@ + p.stem@ + ",\"serif_width\":"@ + p.serif_fine@ + ",\"contrast_ratio\":"@ + p.contrast_ratio@ + ",\"tracking_em\":"@ + p.tracking_em@ + ",\"shear_deg\":"@ + p.shear_deg@ + ",\"weight_multiplier\":"@ + p.weight_multiplier@ + ",\"is_premium\":"@ + bool_text(p.is_premium) + "}"@);
        assert(g =~= ("{\"baseline\":\"barcelona_extropic\",\"stem_width\":"@ + p.stem@ + ",\"serif_width\":"@ + p.serif_fine@ + ",\"contrast_ratio\":"@ + p.contrast_ratio@ + ",\"tracking_em\":"@ + p.tracking_em@ + ",\"shear_deg\":"@ + p.shear_deg@ + ",\"weight_multiplier\":"@ + p.weight_multiplier@ + ","@) + ("\"is_premium\":"@ + bool_text(p.is_premium) + "}"@) + (Seq::<char>::empty()));
        lemma_infix(("{\"baseline\":\"barcelona_extropic\",\"stem_width\":"@ + p.stem@ + ",\"serif_width\":"@ + p.serif_fine@ + ",\"contrast_ratio\":"@ + p.contrast_ratio@ + ",\"tracking_em\":"@ + p.tracking_em@ + ",\"shear_deg\":"@ + p.shear_deg@ + ",\"weight_multiplier\":"@ + p.weight_multiplier@ + ","@), "\"is_premium\":"@ + bool_text(p.is_premium) + "}"@, Seq::<char>::empty());
    }
}

/// The proof-of-render envelope of a text holds, under `svg`, the rendered
/// document as a JSON string; under `sha256`, the hash of that document followed
/// by the parameter record; and under `params`, the parameter record itself.
#[verifier::spinoff_prover]
#[verifier::rlimit(100)]
pub proof fn lemma_proof_envelope_fields(p: FontParams, s: Seq<char>)
    ensures
        contains_text(p.spec_render_with_proof(s), "{\"svg\":"@ + crate::json::json_quoted(p.spec_render_string(s)) + ","@),
        contains_text(p.spec_render_with_proof(s), "\"sha256\":\""@ + crate::digest::proof_hash(p.spec_render_string(s), p.spec_params_json()) + "\""@),
        contains_text(p.spec_render_with_proof(s), "\"params\":"@ + p.spec_params_json() + "}"@),
{
    assert(contains_text(p.spec_render_with_proof(s), "{\"svg\":"@ + crate::json::json_quoted(p.spec_render_string(s)) + ","@)) by {
        reveal_strlit("{\"svg\":");
        reveal_strlit(",\"sha256\":\"");
        reveal_strlit(",");
        reveal_strlit("\"sha256\":\"");
        assert(",\"sha256\":\""@ =~= ","@ + "\"sha256\":\""@);
        let g = p.spec_render_with_proof(s);
        assert(g =~= Seq::<char>::empty() + "{\"svg\":"@ + crate::json::json_quoted(p.spec_render_string(s)) + ",\"sha256\":\""@ + crate::digest::proof_hash(p.spec_render_string(s), p.spec_params_json()) + "\",\"params\":"@ + p.spec_params_json() + "}"@);
        assert(g =~= (Seq::<char>::empty()) + ("{\"svg\":"@ + crate::json::json_quoted(p.spec_render_string(s)) + ","@) + ("\"sha256\":\""@ + crate::digest::proof_hash(p.spec_render_string(s), p.spec_params_json()) + "\",\"params\":"@ + p.spec_params_json() + "}"@));
        lemma_infix((Seq::<char>::empty()), "{\"svg\":"@ + crate::json::json_quoted(p.spec_render_string(s)) + ","@, "\"sha256\":\""@ + crate::digest::proof_hash(p.spec_render_string(s), p.spec_params_json()) + "\",\"params\":"@ + p.spec_params_json() + "}"@);
    }
    assert(contains_text(p.spec_render_with_proof(s), "\"sha256\":\""@ + crate::digest::proof_hash(p.spec_render_string(s), p.spec_params_json()) + "\""@)) by {
        reveal_strlit(",\"sha256\":\"");
        reveal_strlit("\"sha256\":\"");
        reveal_strlit("\",\"params\":");
        reveal_strlit("\"");
        reveal_strlit(",");
        reveal_strlit(",\"params\":");
        assert(",\"sha256\":\""@ =~= ","@ + "\"sha256\":\""@);
        assert("\",\"params\":"@ =~= "\""@ + ",\"params\":"@);
        let g = p.spec_render_with_proof(s);
        assert(g =~= "{\"svg\":"@ + crate::json::json_quoted(p.spec_render_string(s)) + ",\"sha256\":\""@ + crate::digest::proof_hash(p.spec_render_string(s), p.spec_params_json()) + "\",\"params\":"@ + p.spec_params_json() + "}"@);
        assert(g =~= ("{\"svg\":"@ + crate::json::json_quoted(p.spec_render_string(s)) + ","@) + ("\"sha256\":\""@ + crate::digest::proof_hash(p.spec_render_string(s), p.spec_params_json()) + "\""@) + (",\"params\":"@ + p.spec_params_json() + "}"@));
        lemma_infix(("{\"svg\":"@ + crate::json::json_quoted(p.spec_render_string(s)) + ","@), "\"sha256\":\""@ + crate::digest::proof_hash(p.spec_render_string(s), p.spec_params_json()) + "\""@, ",\"params\":"@ + p.spec_params_json() + "}"@);
    }
    assert(contains_text(p.spec_render_with_proof(s), "\"params\":"@ + p.spec_params_json() + "}"@)) by {
        reveal_strlit("\",\"params\":");
        reveal_strlit("\"params\":");
        reveal_strlit("}");
        reveal_strlit("\",");
        assert("\",\"params\":"@ =~= "\","@ + "\"params\":"@);
        let g = p.spec_render_with_proof(s);
        assert(g =~= "{\"svg\":"@ + crate::json::json_quoted(p.spec_render_string(s)) + ",\"sha256\":\""@ + crate::digest::proof_hash(p.spec_render_string(s), p.spec_params_json()) + "\",\"params\":"@ + p.spec_params_json() + "}"@);
        assert(g =~= ("{\"svg\":"@ + crate::json::json_quoted(p.spec_render_string(s)) + ",\"sha256\":\""@ + crate::digest::proof_hash(p.spec_render_string(s), p.spec_params_json()) + "\","@) + ("\"params\":"@ + p.spec_params_json() + "}"@) + (Seq::<char>::empty()));
        lemma_infix(("{\"svg\":"@ + crate::json::json_quoted(p.spec_render_string(s)) + ",\"sha256\":\""@ + crate::digest::proof_hash(p.spec_render_string(s), p.spec_params_json()) + "\","@), "\"params\":"@ + p.spec_params_json() + "}"@, Seq::<char>::empty());
    }
}

} // verus!
