use vstd::prelude::*;
use vstd::string::StringExecFns;
use crate::text::{decimal, append_decimal, occurs_at, contains_text};

verus! {

/// The mirror operation applied to a glyph.
#[derive(Clone, Copy, Debug, PartialEq, Eq, Structural)]
pub enum ChiralAxis {
    /// Left-right mirror.
    Horizontal,
    /// Top-bottom mirror.
    Vertical,
    /// Point symmetry through the glyph centre.
    Rotation180,
    /// No transform.
    Identity,
}

impl ChiralAxis {
    /// The axis selected by a numeric setting: 1 horizontal, 2 vertical,
    /// 3 rotation, anything else none.
    pub open spec fn spec_from_code(code: u8) -> ChiralAxis {
        if code == 1 {
            ChiralAxis::Horizontal
        } else if code == 2 {
            ChiralAxis::Vertical
        } else if code == 3 {
            ChiralAxis::Rotation180
        } else {
            ChiralAxis::Identity
        }
    }

    /// The axis selected by a numeric setting: 1 horizontal, 2 vertical,
    /// 3 rotation, anything else none.
    pub fn from_code(code: u8) -> (axis: ChiralAxis)
        ensures
            axis == Self::spec_from_code(code),
    {
        match code {
            1 => ChiralAxis::Horizontal,
            2 => ChiralAxis::Vertical,
            3 => ChiralAxis::Rotation180,
            _ => ChiralAxis::Identity,
        }
    }

    /// The position of the axis in the declaration order (horizontal 0,
    /// vertical 1, rotation 2, none 3), as it is reported in ambigram JSON.
    pub open spec fn spec_ordinal(self) -> u8 {
        match self {
            ChiralAxis::Horizontal => 0,
            ChiralAxis::Vertical => 1,
            ChiralAxis::Rotation180 => 2,
            ChiralAxis::Identity => 3,
        }
    }

    /// The position of the axis in the declaration order.
    pub fn ordinal(self) -> (n: u8)
        ensures
            n == self.spec_ordinal(),
    {
        match self {
            ChiralAxis::Horizontal => 0,
            ChiralAxis::Vertical => 1,
            ChiralAxis::Rotation180 => 2,
            ChiralAxis::Identity => 3,
        }
    }

    /// The label of the axis in the seismic log.
    pub open spec fn spec_label(self) -> Seq<char> {
        match self {
            ChiralAxis::Identity => "none"@,
            ChiralAxis::Horizontal => "horizontal"@,
            ChiralAxis::Vertical => "vertical"@,
            ChiralAxis::Rotation180 => "rotation_180"@,
        }
    }

    /// The label of the axis in the seismic log.
    pub fn label(self) -> (label: String)
        ensures
            label@ == self.spec_label(),
    {
        match self {
            ChiralAxis::Identity => String::from_str("none"),
            ChiralAxis::Horizontal => String::from_str("horizontal"),
            ChiralAxis::Vertical => String::from_str("vertical"),
            ChiralAxis::Rotation180 => String::from_str("rotation_180"),
        }
    }

    /// Whether the transform mirrors the x axis.
    pub open spec fn flips_x(self) -> bool {
        self == ChiralAxis::Horizontal || self == ChiralAxis::Rotation180
    }

    /// Whether the transform mirrors the y axis.
    pub open spec fn flips_y(self) -> bool {
        self == ChiralAxis::Vertical || self == ChiralAxis::Rotation180
    }

    /// The SVG transform matrix of the axis for a glyph whose doubled centre
    /// coordinates are written `tx` and `ty` (two decimals).
    pub open spec fn spec_svg_transform(self, tx: Seq<char>, ty: Seq<char>) -> Option<Seq<char>> {
        match self {
            ChiralAxis::Identity => None,
            ChiralAxis::Horizontal => Some("matrix(-1,0,0,1,"@ + tx + ",0)"@),
            ChiralAxis::Vertical => Some("matrix(1,0,0,-1,0,"@ + ty + ")"@),
            ChiralAxis::Rotation180 => Some("matrix(-1,0,0,-1,"@ + tx + ","@ + ty + ")"@),
        }
    }

    /// Emits the SVG transform matrix for a glyph centred at (cx, cy), given
    /// `2 cx` and `2 cy` written with two decimals: a mirror scales by -1 and
    /// translates back by twice the centre.
    pub fn svg_transform(self, tx: &str, ty: &str) -> (matrix: Option<String>)
        ensures
            match matrix {
                Some(m) => self.spec_svg_transform(tx@, ty@) == Some(m@),
                None => self.spec_svg_transform(tx@, ty@) == Option::<Seq<char>>::None,
            },
    {
        match self {
            ChiralAxis::Identity => None,
            ChiralAxis::Horizontal => {
                let mut s = String::from_str("matrix(-1,0,0,1,");
                s.append(tx);
                s.append(",0)");
                Some(s)
            },
            ChiralAxis::Vertical => {
                let mut s = String::from_str("matrix(1,0,0,-1,0,");
                s.append(ty);
                s.append(")");
                Some(s)
            },
            ChiralAxis::Rotation180 => {
                let mut s = String::from_str("matrix(-1,0,0,-1,");
                s.append(tx);
                s.append(",");
                s.append(ty);
                s.append(")");
                Some(s)
            },
        }
    }
}

/// `svg` wrapped in the transform group of `axis`, or unchanged for no axis.
pub open spec fn spec_apply_chirality(svg: Seq<char>, axis: ChiralAxis, tx: Seq<char>, ty: Seq<char>) -> Seq<char> {
    match axis.spec_svg_transform(tx, ty) {
        None => svg,
        Some(m) => "<g transform='"@ + m + "'>"@ + svg + "</g>"@,
    }
}

/// Wraps an SVG fragment in a chirality transform group (`tx`, `ty`: the
/// doubled glyph centre, two decimals); with no axis the fragment is returned
/// as it is.
pub fn apply_chirality(svg: &str, axis: ChiralAxis, tx: &str, ty: &str) -> (out: String)
    ensures
        out@ == spec_apply_chirality(svg@, axis, tx@, ty@),
{
    match axis.svg_transform(tx, ty) {
        None => String::from_str(svg),
        Some(matrix) => {
            let mut s = String::from_str("<g transform='");
            s.append(matrix.as_str());
            s.append("'>");
            s.append(svg);
            s.append("</g>");
            s
        },
    }
}

/// A mirror never leaves a fragment as it was, and keeps the fragment intact
/// inside its group; no axis passes it through.
pub proof fn lemma_chirality_wraps(svg: Seq<char>, axis: ChiralAxis, tx: Seq<char>, ty: Seq<char>)
    ensures
        axis == ChiralAxis::Identity ==> spec_apply_chirality(svg, axis, tx, ty) == svg,
        axis != ChiralAxis::Identity ==> {
            let out = spec_apply_chirality(svg, axis, tx, ty);
            &&& out != svg
            &&& out.len() > svg.len()
            &&& contains_text(out, svg)
        },
{
    if axis != ChiralAxis::Identity {
        reveal_strlit("<g transform='");
        reveal_strlit("'>");
        reveal_strlit("</g>");
        let m = axis.spec_svg_transform(tx, ty)->0;
        let pre = "<g transform='"@ + m + "'>"@;
        let out = spec_apply_chirality(svg, axis, tx, ty);
        assert(out == pre + svg + "</g>"@);
        let k = pre.len() as int;
        assert(out.subrange(k, k + svg.len()) =~= svg);
        assert(occurs_at(out, svg, k));
    }
}

impl ChiralAxis {
    /// The WebGPU uniform block of the axis: the 2x2 mirror matrix, the
    /// translation (the doubled centre on each mirrored axis, `0.00` on the
    /// others), the morph factor and the glyph id.
    pub open spec fn spec_uniform_json(self, glyph_id: u32, tx: Seq<char>, ty: Seq<char>, morph_t: Seq<char>) -> Seq<char> {
        "{\"mat2x2\":["@ + (if self.flips_x() { "-1.0"@ } else { "1.0"@ }) + ",0.0,0.0,"@
            + (if self.flips_y() { "-1.0"@ } else { "1.0"@ }) + "],\"translation\":["@
            + (if self.flips_x() { tx } else { "0.00"@ }) + ","@
            + (if self.flips_y() { ty } else { "0.00"@ }) + "],\"morph_t\":"@ + morph_t
            + ",\"glyph_id\":"@ + decimal(glyph_id as nat) + "}"@
    }

    /// Writes the WebGPU uniform block of the axis (`tx`, `ty`: the doubled
    /// centre, two decimals; `morph_t`: three decimals).
    pub fn uniform_json(self, glyph_id: u32, tx: &str, ty: &str, morph_t: &str) -> (json: String)
        ensures
            json@ == self.spec_uniform_json(glyph_id, tx@, ty@, morph_t@),
    {
        let fx = self == ChiralAxis::Horizontal || self == ChiralAxis::Rotation180;
        let fy = self == ChiralAxis::Vertical || self == ChiralAxis::Rotation180;
        let mut s = String::from_str("{\"mat2x2\":[");
        if fx {
            s.append("-1.0");
        } else {
            s.append("1.0");
        }
        s.append(",0.0,0.0,");
        if fy {
            s.append("-1.0");
        } else {
            s.append("1.0");
        }
        s.append("],\"translation\":[");
        if fx {
            s.append(tx);
        } else {
            s.append("0.00");
        }
        s.append(",");
        if fy {
            s.append(ty);
        } else {
            s.append("0.00");
        }
        s.append("],\"morph_t\":");
        s.append(morph_t);
        s.append(",\"glyph_id\":");
        append_decimal(&mut s, glyph_id as u64);
        s.append("}");
        s
    }
}

/// The integer text of a mirror coefficient: `-1` on a mirrored axis, `1`
/// otherwise.
pub open spec fn coefficient_text(flip: bool) -> Seq<char> {
    if flip {
        "-1"@
    } else {
        "1"@
    }
}

/// The SVG transform and the WebGPU uniform of an axis describe the same
/// matrix `(a, 0, 0, d, e, f)`: `a` is -1 exactly when x is mirrored and `d`
/// exactly when y is mirrored, `e` is the doubled centre x when x is
/// mirrored and 0 otherwise, `f` likewise for y. The SVG transform writes the
/// coefficients as integers; the uniform writes them with one decimal and
/// the translation with two. The axis without a mirror has no SVG transform
/// and the identity uniform.
pub proof fn lemma_uniform_matches_transform(
    axis: ChiralAxis,
    glyph_id: u32,
    tx: Seq<char>,
    ty: Seq<char>,
    morph_t: Seq<char>,
)
    ensures
        (axis.spec_svg_transform(tx, ty) is None) <==> (!axis.flips_x() && !axis.flips_y()),
        axis.spec_svg_transform(tx, ty) is Some ==> axis.spec_svg_transform(tx, ty)->0 == "matrix("@
            + coefficient_text(axis.flips_x()) + ",0,0,"@ + coefficient_text(axis.flips_y()) + ","@
            + (if axis.flips_x() { tx } else { "0"@ }) + ","@ + (if axis.flips_y() { ty } else { "0"@ })
            + ")"@,
        axis.spec_uniform_json(glyph_id, tx, ty, morph_t) == "{\"mat2x2\":["@ + (coefficient_text(
            axis.flips_x(),
        ) + ".0"@) + ",0.0,0.0,"@ + (coefficient_text(axis.flips_y()) + ".0"@)
            + "],\"translation\":["@ + (if axis.flips_x() { tx } else { "0"@ + ".00"@ }) + ","@
            + (if axis.flips_y() { ty } else { "0"@ + ".00"@ }) + "],\"morph_t\":"@ + morph_t
            + ",\"glyph_id\":"@ + decimal(glyph_id as nat) + "}"@,
{
    reveal_strlit("matrix(");
    reveal_strlit("-1");
    reveal_strlit("1");
    reveal_strlit(",0,0,");
    reveal_strlit(",");
    reveal_strlit("0");
    reveal_strlit(")");
    reveal_strlit(",0)");
    reveal_strlit("matrix(-1,0,0,1,");
    reveal_strlit("matrix(1,0,0,-1,0,");
    reveal_strlit("matrix(-1,0,0,-1,");
    reveal_strlit("-1.0");
    reveal_strlit("1.0");
    reveal_strlit(".0");
    reveal_strlit("0.00");
    reveal_strlit(".00");
    assert("-1"@ + ".0"@ =~= "-1.0"@);
    assert("1"@ + ".0"@ =~= "1.0"@);
    assert("0"@ + ".00"@ =~= "0.00"@);
    match axis {
        ChiralAxis::Horizontal => {
            assert("matrix("@ + "-1"@ + ",0,0,"@ + "1"@ + ","@ + tx + ","@ + "0"@ + ")"@
                =~= "matrix(-1,0,0,1,"@ + tx + ",0)"@);
        },
        ChiralAxis::Vertical => {
            assert("matrix("@ + "1"@ + ",0,0,"@ + "-1"@ + ","@ + "0"@ + ","@ + ty + ")"@
                =~= "matrix(1,0,0,-1,0,"@ + ty + ")"@);
        },
        ChiralAxis::Rotation180 => {
            assert("matrix("@ + "-1"@ + ",0,0,"@ + "-1"@ + ","@ + tx + ","@ + ty + ")"@
                =~= "matrix(-1,0,0,-1,"@ + tx + ","@ + ty + ")"@);
        },
        ChiralAxis::Identity => {},
    }
}

} // verus!
