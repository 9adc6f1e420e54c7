use barcelona_extropic::{apply_chirality, is_premium_license_key, ChiralAxis, FontParams};

/// The doubled centre coordinate, two decimals, as the transforms print it.
fn doubled(c: f32) -> String {
    format!("{:.2}", 2.0 * c)
}

fn transform(axis: ChiralAxis, cx: f32, cy: f32) -> Option<String> {
    axis.svg_transform(&doubled(cx), &doubled(cy))
}

fn chiral(svg: &str, axis: ChiralAxis, cx: f32, cy: f32) -> String {
    apply_chirality(svg, axis, &doubled(cx), &doubled(cy))
}

fn baseline(premium: bool) -> FontParams {
    FontParams {
        is_premium: premium,
        stem: "12.0".to_string(),
        serif: "1.00".to_string(),
        serif_fine: "1.000".to_string(),
        contrast_ratio: "12.0".to_string(),
        tracking_em: "0.25".to_string(),
        shear_deg: "0.00".to_string(),
        shear_visible: false,
        weight_multiplier: "1.00".to_string(),
    }
}

#[test]
fn h_flip_matrix_correct() {
    let m = transform(ChiralAxis::Horizontal, 80.0, 90.0).unwrap();
    assert_eq!(m, "matrix(-1,0,0,1,160.00,0)");
}

#[test]
fn v_flip_matrix_correct() {
    let m = transform(ChiralAxis::Vertical, 80.0, 90.0).unwrap();
    assert_eq!(m, "matrix(1,0,0,-1,0,180.00)");
}

#[test]
fn rot180_matrix_correct() {
    let m = transform(ChiralAxis::Rotation180, 80.0, 90.0).unwrap();
    assert_eq!(m, "matrix(-1,0,0,-1,160.00,180.00)");
}

#[test]
fn none_returns_identity() {
    assert!(transform(ChiralAxis::Identity, 80.0, 90.0).is_none());
}

#[test]
fn apply_chirality_wraps_svg() {
    let svg = "<path d='M0 0'/>";
    let result = chiral(svg, ChiralAxis::Horizontal, 80.0, 90.0);
    assert!(result.starts_with("<g transform='matrix(-1"));
    assert!(result.ends_with("</g>"));
    assert!(result.contains(svg));
}

#[test]
fn none_chirality_is_passthrough() {
    let svg = "<path d='M0 0'/>";
    let result = chiral(svg, ChiralAxis::Identity, 80.0, 90.0);
    assert_eq!(result, svg);
}

#[test]
fn double_h_flip_is_identity_matrix() {
    let svg = "<path/>";
    let once = chiral(svg, ChiralAxis::Horizontal, 80.0, 90.0);
    let twice = chiral(&once, ChiralAxis::Horizontal, 80.0, 90.0);
    assert!(twice.contains("matrix(-1,0,0,1,160.00,0)"));
    assert!(twice.contains(&once));
}

#[test]
fn chirality_does_not_mutate_font_architect() {
    assert!(is_premium_license_key("GEN-BE-TEST-0001"));
    let fa = baseline(true);
    let svg = fa.render_string("A");
    let chiral_svg = chiral(&svg, ChiralAxis::Horizontal, 80.0, 90.0);
    let svg2 = fa.render_string("A");
    assert_eq!(svg, svg2, "FontArchitect state was mutated by chirality");
    assert_ne!(svg, chiral_svg, "chiral should differ from canonical");
}

#[test]
fn axis_codes_and_labels() {
    assert_eq!(ChiralAxis::from_code(0), ChiralAxis::Identity);
    assert_eq!(ChiralAxis::from_code(1), ChiralAxis::Horizontal);
    assert_eq!(ChiralAxis::from_code(2), ChiralAxis::Vertical);
    assert_eq!(ChiralAxis::from_code(3), ChiralAxis::Rotation180);
    assert_eq!(ChiralAxis::from_code(200), ChiralAxis::Identity);
    assert_eq!(ChiralAxis::Horizontal.ordinal(), 0);
    assert_eq!(ChiralAxis::Identity.ordinal(), 3);
    assert_eq!(ChiralAxis::Identity.label(), "none");
}

#[test]
fn rotation_wraps_exactly() {
    let out = chiral("<p/>", ChiralAxis::Rotation180, 1.5, -2.25);
    assert_eq!(out, "<g transform='matrix(-1,0,0,-1,3.00,-4.50)'><p/></g>");
}

#[test]
fn uniform_json_identity_has_no_translation() {
    let json = ChiralAxis::Identity.uniform_json(7, "160.00", "180.00", "0.000");
    assert_eq!(
        json,
        "{\"mat2x2\":[1.0,0.0,0.0,1.0],\"translation\":[0.00,0.00],\"morph_t\":0.000,\"glyph_id\":7}"
    );
    let json = ChiralAxis::Vertical.uniform_json(65536, "160.00", "180.00", "1.000");
    assert_eq!(
        json,
        "{\"mat2x2\":[1.0,0.0,0.0,-1.0],\"translation\":[0.00,180.00],\"morph_t\":1.000,\"glyph_id\":65536}"
    );
}
