use barcelona_extropic::font::{free_tier_stub, proof_envelope, snap};
use barcelona_extropic::{
    is_premium_license_key, serde_json_escape, FontParams, GlyphIndex, GlyphKind,
};
use barcelona_extropic::digest::proof_of_render_hash;
use barcelona_extropic::text::decimal_string;

/// The parameter text of a font architect with the given state, written as
/// the renderer prints it.
fn params(premium: bool, weight: f32, shear_degrees: f32, tracking: f32) -> FontParams {
    let weight = weight.clamp(0.5, 4.0);
    let shear_rad = shear_degrees.to_radians();
    let stem = (12.0f32 * weight).max(2.0);
    let serif = (stem / 12.0f32).max(0.5);
    FontParams {
        is_premium: premium,
        stem: format!("{:.1}", stem),
        serif: format!("{:.2}", serif),
        serif_fine: format!("{:.3}", serif),
        contrast_ratio: format!("{:.1}", 12.0f32),
        tracking_em: format!("{:.2}", tracking),
        shear_deg: format!("{:.2}", shear_rad.to_degrees()),
        shear_visible: !(shear_rad.abs() < 0.001),
        weight_multiplier: format!("{:.2}", weight),
    }
}

fn premium() -> FontParams {
    assert!(is_premium_license_key("GEN-BE-TEST-0001"));
    params(true, 1.0, 0.0, 0.25)
}

fn free_tier() -> FontParams {
    assert!(!is_premium_license_key("free"));
    params(false, 1.0, 0.0, 0.25)
}

#[test]
fn qos_free_tier_a_allowed() {
    assert!(!free_tier().render_glyph_a().contains("QoS"));
}

#[test]
fn qos_free_tier_b_blocked() {
    assert!(free_tier().render_glyph_b().contains("QoS"));
}

#[test]
fn qos_premium_all_pass() {
    let fa = premium();
    for s in [fa.render_glyph_a(), fa.render_glyph_b(), fa.render_glyph_c(), fa.render_glyph_o()] {
        assert!(!s.contains("QoS"));
    }
}

#[test]
fn grid_snap() {
    assert_eq!(snap(73), 72);
    assert_eq!(snap(76), 76);
    assert_eq!(snap(72), 72);
}

#[test]
fn kinetic_has_skew() {
    let fa = params(true, 1.0, -12.0, 0.25);
    assert!(fa.render_glyph_a().contains("skewX"));
}

#[test]
fn proof_of_render_contains_hash() {
    let fa = premium();
    let result = fa.render_string_with_proof("ABC");
    assert!(result.contains("sha256"));
    assert!(result.contains("svg"));
    let hash_start = result.find(r#""sha256":""#).unwrap() + 10;
    let hash = &result[hash_start..hash_start + 64];
    assert!(hash.chars().all(|c| c.is_ascii_hexdigit()), "hash={hash}");
}

#[test]
fn proof_hash_is_deterministic() {
    let fa = premium();
    let r1 = fa.render_string_with_proof("A");
    let r2 = fa.render_string_with_proof("A");
    assert_eq!(r1, r2, "proof must be deterministic");
}

#[test]
fn proof_hash_changes_on_mutation() {
    let fa = premium();
    assert!(is_premium_license_key("GEN-BE-TEST-0001"));
    let fa2 = params(true, 2.0, 0.0, 0.25);
    let r1 = fa.render_string_with_proof("A");
    let r2 = fa2.render_string_with_proof("A");
    assert_ne!(r1, r2, "different params must produce different hashes");
}

#[test]
fn params_json_correct() {
    let json = premium().export_params_json();
    assert!(json.contains("\"contrast_ratio\":12.0"));
    assert!(json.contains("barcelona_extropic"));
}

#[test]
fn json_escape_handles_quotes() {
    let escaped = serde_json_escape(r#"say "hello""#);
    assert_eq!(escaped, r#""say \"hello\"""#);
}

#[test]
fn json_escape_all_special_characters() {
    assert_eq!(serde_json_escape("a\\b\nc\rd\te"), "\"a\\\\b\\nc\\rd\\te\"");
    assert_eq!(serde_json_escape(""), "\"\"");
    assert_eq!(serde_json_escape("é<'>"), "\"é<'>\"");
}

#[test]
fn json_escape_control_characters() {
    assert_eq!(serde_json_escape("\u{1}"), r#""\u0001""#);
    assert_eq!(serde_json_escape("\u{0}x\u{1f}"), r#""\u0000x\u001f""#);
    assert_eq!(serde_json_escape("\u{8}\u{c}"), r#""\b\f""#);
    assert_eq!(serde_json_escape("\u{7f} "), "\"\u{7f} \"");
}

#[test]
fn license_key_rules() {
    assert!(is_premium_license_key("GEN-BE-1234567"));
    assert!(!is_premium_license_key("GEN-BE-123456"));
    assert!(!is_premium_license_key("gen-be-1234567"));
    assert!(!is_premium_license_key("XGEN-BE-1234567"));
    assert!(!is_premium_license_key(""));
    // 7 characters of prefix and 3 two-byte characters: 13 bytes.
    assert!(!is_premium_license_key("GEN-BE-ééé"));
    // 7 characters of prefix and 4 two-byte characters: 15 bytes.
    assert!(is_premium_license_key("GEN-BE-éééé"));
}

#[test]
fn snap_ties_away_from_zero() {
    assert_eq!(snap(74), 76);
    assert_eq!(snap(75), 76);
    assert_eq!(snap(0), 0);
    assert_eq!(snap(-73), -72);
    assert_eq!(snap(-74), -76);
    assert_eq!(snap(i32::MAX), 2147483648);
}

#[test]
fn decimal_formatting() {
    assert_eq!(decimal_string(0), "0");
    assert_eq!(decimal_string(7), "7");
    assert_eq!(decimal_string(160), "160");
    assert_eq!(decimal_string(u64::MAX), "18446744073709551615");
}

#[test]
fn glyph_a_exact_outline() {
    let svg = premium().render_glyph_a();
    assert_eq!(
        svg,
        "<g class='be-A'><path d='M40 150 L76 30 L110 150' stroke='currentColor' stroke-width='12.0' fill='none' stroke-linecap='square'/><path d='M55 110 L95 110 M30 150 L120 150 M70 30 L82 30' stroke='currentColor' stroke-width='1.00' fill='none'/></g>"
    );
}

#[test]
fn glyph_o_exact_outline_with_skew() {
    let svg = params(true, 1.0, 10.0, 0.25).render_glyph_o();
    assert_eq!(
        svg,
        "<g class='be-O' transform='skewX(10.00)'><ellipse cx='520' cy='90' rx='40' ry='48' stroke='currentColor' stroke-width='1.00' fill='none'/><path d='M480 90 A40 48 0 0 1 560 90 A40 48 0 0 1 480 90' stroke='currentColor' stroke-width='12.0' fill='none' stroke-dasharray='150.8 150.8'/></g>"
    );
}

#[test]
fn free_tier_stub_text() {
    assert_eq!(
        free_tier_stub('B'),
        "<text x='0' y='100' font-size='12' fill='rgba(255,100,100,0.7)' font-family='monospace'>QoS:B requires GEN-BE-* license</text>"
    );
    assert_eq!(free_tier().render_glyph_b(), free_tier_stub('B'));
    assert_eq!(free_tier().render_glyph(GlyphKind::C), free_tier().render_glyph_c());
}

#[test]
fn glyph_index_dispatch() {
    let index = GlyphIndex::new();
    assert_eq!(index.get('A'), Some(GlyphKind::A));
    assert_eq!(index.get('B'), Some(GlyphKind::B));
    assert_eq!(index.get('C'), Some(GlyphKind::C));
    assert_eq!(index.get('O'), Some(GlyphKind::O));
    assert_eq!(index.get('a'), None);
    assert_eq!(index.get('Z'), None);
}

#[test]
fn render_string_layout() {
    let fa = premium();
    let empty = fa.render_string("");
    assert_eq!(
        empty,
        "<svg width='160' height='180' viewBox='0 0 160 180' xmlns='http://www.w3.org/2000/svg'></svg>"
    );
    let two = fa.render_string("az");
    let expected = format!(
        "<svg width='320' height='180' viewBox='0 0 320 180' xmlns='http://www.w3.org/2000/svg'><g transform='translate(0,0)'>{}</g><g transform='translate(160,0)'><text x='20' y='110' fill='rgba(255,255,255,0.3)' font-size='80' font-family='serif'>z</text></g></svg>",
        fa.render_glyph_a()
    );
    assert_eq!(two, expected);
}

#[test]
fn params_json_exact() {
    assert_eq!(
        free_tier().export_params_json(),
        "{\"baseline\":\"barcelona_extropic\",\"stem_width\":12.0,\"serif_width\":1.000,\"contrast_ratio\":12.0,\"tracking_em\":0.25,\"shear_deg\":0.00,\"weight_multiplier\":1.00,\"is_premium\":false}"
    );
}

#[test]
fn hash_of_known_input() {
    // SHA-256 of "abc", hashed as "ab" followed by "c".
    assert_eq!(
        proof_of_render_hash("ab", "c"),
        "ba7816bf8f01cfea414140de5dae2223b00361a396177a9cb410ff61f20015ad"
    );
    assert_eq!(
        proof_of_render_hash("", ""),
        "e3b0c44298fc1c149afbf4c8996fb92427ae41e4649b934ca495991b7852b855"
    );
}

#[test]
fn envelope_layout() {
    assert_eq!(
        proof_envelope("<a 'x'>\"", "00ff", "{\"k\":1}"),
        "{\"svg\":\"<a 'x'>\\\"\",\"sha256\":\"00ff\",\"params\":{\"k\":1}}"
    );
}

#[test]
fn render_with_proof_matches_parts() {
    let fa = premium();
    let svg = fa.render_string("OB");
    let params_json = fa.export_params_json();
    let hash = proof_of_render_hash(&svg, &params_json);
    assert_eq!(
        fa.render_string_with_proof("OB"),
        proof_envelope(&svg, &hash, &params_json)
    );
}

#[test]
fn placeholder_only_for_free_b() {
    let placeholder = free_tier_stub('B');
    assert!(free_tier().render_string("xbz").contains(&placeholder));
    assert!(!free_tier().render_string("aco").contains("QoS"));
    assert!(!premium().render_string("bB").contains("QoS"));
}
