use barcelona_extropic::ambigraph::{
    ambigram_pair_json, create_ambigram_pair, interpolate_svg, morph, pair, render_ambigram_string,
};
use barcelona_extropic::{ChiralAxis, FontParams, GlyphPair};

fn premium() -> FontParams {
    FontParams {
        is_premium: true,
        stem: "12.0".to_string(),
        serif: "1.00".to_string(),
        serif_fine: "1.000".to_string(),
        contrast_ratio: "12.0".to_string(),
        tracking_em: "0.25".to_string(),
        shear_deg: "0.00".to_string(),
        shear_visible: false,
        weight_multiplier: "1.00".to_string(),
    }
}

/// The opacity texts of a morph at `t`, clamped to [0, 1].
fn opacities(t: f32) -> (String, String) {
    let t = t.clamp(0.0, 1.0);
    (format!("{:.3}", 1.0 - t), format!("{:.3}", t))
}

fn morph_at(params: &FontParams, ch: char, t: f32) -> String {
    let (c, x) = opacities(t);
    morph(params, ChiralAxis::Horizontal, ch, "160.00", "180.00", &c, &x)
}

/// The record of a pair, with the centre of a cell as wide as the
/// character's UTF-8 length.
fn pair_record(params: &FontParams, axis: ChiralAxis, ch: char) -> String {
    let tx = format!("{:.2}", 2.0 * 80.0f32 * (ch.len_utf8() as f32));
    create_ambigram_pair(params, axis, ch, &tx, "180.00")
}

#[test]
fn pair_returns_distinct_ids() {
    let (c, x) = pair(b'A' as u32);
    assert_ne!(c, x, "canonical and chiral IDs must differ");
}

#[test]
fn pair_preserves_codepoint() {
    let glyph_id = ('A' as u16 as u32) << 16;
    let (c, x) = pair(glyph_id);
    assert_eq!(
        GlyphPair::codepoint(c),
        GlyphPair::codepoint(x),
        "codepoint must be identical across canonical and chiral"
    );
}

#[test]
fn pair_exact_ids() {
    assert_eq!(pair(0x0041_0007), (0x0041_0000, 0x0041_0001));
    let p = GlyphPair::new(0x263A, 5);
    assert_eq!(p, GlyphPair { canonical: 0x263A_0000, chiral: 0x263A_0005 });
    assert_eq!(GlyphPair::codepoint(p.chiral), 0x263A);
    assert_eq!(GlyphPair::variant(p.chiral), 5);
    assert_eq!(GlyphPair::variant(p.canonical), 0);
    assert_eq!(pair(u32::MAX), (0xFFFF_0000, 0xFFFF_0001));
}

#[test]
fn morph_t0_is_canonical_dominant() {
    let m = morph_at(&premium(), 'A', 0.0);
    assert!(m.contains("opacity='1.000'"), "t=0 should give canonical opacity=1");
    assert!(m.contains("opacity='0.000'"), "t=0 should give chiral opacity=0");
}

#[test]
fn morph_t1_is_chiral_dominant() {
    let m = morph_at(&premium(), 'A', 1.0);
    assert!(m.contains("opacity='0.000'"), "t=1 should give canonical opacity=0");
    assert!(m.contains("opacity='1.000'"), "t=1 should give chiral opacity=1");
}

#[test]
fn morph_frame_layout() {
    let fa = premium();
    let canonical = fa.render_string("A");
    let m = morph(&fa, ChiralAxis::Identity, 'A', "160.00", "180.00", "0.750", "0.250");
    let expected = format!(
        "<svg width='160' height='180' viewBox='0 0 160 180' xmlns='http://www.w3.org/2000/svg'><g opacity='0.750'>{c}</g><g opacity='0.250'>{c}</g></svg>",
        c = canonical
    );
    assert_eq!(m, expected);
}

#[test]
fn pair_hash_is_deterministic() {
    let fa = premium();
    let r1 = pair_record(&fa, ChiralAxis::Horizontal, 'A');
    let r2 = pair_record(&fa, ChiralAxis::Horizontal, 'A');
    assert_eq!(r1, r2);
}

#[test]
fn pair_hash_differs_by_axis() {
    let fa = premium();
    let r_h = pair_record(&fa, ChiralAxis::from_code(1), 'A');
    let r_r = pair_record(&fa, ChiralAxis::from_code(3), 'A');
    assert_ne!(r_h, r_r, "different axes must produce different pair hashes");
}

#[test]
fn pair_record_layout() {
    assert_eq!(
        ambigram_pair_json("<a/>", "<b\"/>", "ff", ChiralAxis::Vertical),
        "{\"canonical\":\"<a/>\",\"chiral\":\"<b\\\"/>\",\"pair_hash\":\"ff\",\"axis\":1}"
    );
    let record = pair_record(&premium(), ChiralAxis::Rotation180, 'é');
    assert!(record.contains("matrix(-1,0,0,-1,320.00,180.00)"));
    assert!(record.ends_with(",\"axis\":2}"));
    let start = record.find(r#""pair_hash":""#).unwrap() + 13;
    let hash = &record[start..start + 64];
    assert!(hash.chars().all(|c| c.is_ascii_digit() || ('a'..='f').contains(&c)));
    assert!(record[start + 64..].starts_with(r#"","axis":"#));
}

#[test]
fn axis_label_correct() {
    assert_eq!(ChiralAxis::from_code(1).label(), "horizontal");
    assert_eq!(ChiralAxis::from_code(2).label(), "vertical");
    assert_eq!(ChiralAxis::from_code(3).label(), "rotation_180");
    assert_eq!(ChiralAxis::from_code(0).label(), "none");
}

#[test]
fn webgpu_descriptor_h_flip_uniform() {
    let t = 0.5f32.clamp(0.0, 1.0);
    let json = ChiralAxis::from_code(1).uniform_json(
        0x00410000,
        &format!("{:.2}", 2.0 * 80.0f32),
        &format!("{:.2}", 2.0 * 90.0f32),
        &format!("{:.3}", t),
    );
    assert!(json.contains(r#""mat2x2":[-1.0,0.0,0.0,1.0]"#));
    assert!(json.contains(r#""translation":[160.00,0.00]"#));
    assert!(json.contains(r#""morph_t":0.500"#));
}

#[test]
fn webgpu_descriptor_rot180_uniform() {
    let json = ChiralAxis::from_code(3).uniform_json(0x00410000, "160.00", "180.00", "0.000");
    assert!(json.contains(r#""mat2x2":[-1.0,0.0,0.0,-1.0]"#));
    assert!(json.contains(r#""translation":[160.00,180.00]"#));
}

#[test]
fn ambigram_string_contains_hairline() {
    let svg = render_ambigram_string(&premium(), ChiralAxis::Horizontal, "AB", "160.00", "180.00");
    assert!(svg.contains("<line"), "ambigram string must contain hairline separator");
    assert!(svg.contains("stroke='rgba(255,255,255,0.15)'"));
}

#[test]
fn ambigram_string_layout() {
    let fa = premium();
    let a = fa.render_string("A");
    let svg = render_ambigram_string(&fa, ChiralAxis::Identity, "A", "160.00", "180.00");
    let expected = format!(
        "<svg width='160' height='380' viewBox='0 0 160 380' xmlns='http://www.w3.org/2000/svg'><g transform='translate(0,0)'><g transform='translate(0,0)'>{a}</g></g><line x1='0' y1='188' x2='160' y2='188' stroke='rgba(255,255,255,0.15)' stroke-width='1'/><g transform='translate(0,200)'><g transform='translate(0,0)'>{a}</g></g></svg>"
    );
    assert_eq!(svg, expected);
}

#[test]
fn interpolate_svg_trait_method() {
    let c = "<path d='M0 0'/>";
    let x = "<path d='M10 10'/>";
    let (op_c, op_x) = opacities(0.5);
    let mid = interpolate_svg(c, x, &op_c, &op_x);
    assert!(mid.contains("opacity='0.500'"));
}
