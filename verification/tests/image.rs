use imgui_image::{Call, Image, Scalar, TextureId, Ui, Vec2, Vec4};

fn v2(x: f32, y: f32) -> Vec2 {
    Vec2::from_bits(x.to_bits(), y.to_bits())
}

fn v4(x: f32, y: f32, z: f32, w: f32) -> Vec4 {
    Vec4::from_bits(x.to_bits(), y.to_bits(), z.to_bits(), w.to_bits())
}

fn image_call(texture: usize, size: Vec2, uv0: Vec2, uv1: Vec2, tint: Vec4, border: Vec4) -> Call {
    Call::Image {
        texture_id: TextureId::new(texture),
        size,
        uv0,
        uv1,
        tint_col: tint,
        border_col: border,
    }
}

#[test]
fn scalar_keeps_the_bits_of_a_float() {
    assert_eq!(Scalar::from_bits(0.0f32.to_bits()).to_bits(), 0);
    assert_eq!(Scalar::from_bits(1.0f32.to_bits()).to_bits(), 0x3F80_0000);
    assert_eq!(f32::from_bits(Scalar::from_bits(32.5f32.to_bits()).to_bits()), 32.5);
    assert_eq!(imgui_image::math::ZERO_BITS, 0.0f32.to_bits());
    assert_eq!(imgui_image::math::ONE_BITS, 1.0f32.to_bits());
}

#[test]
fn vectors_hold_their_components_in_order() {
    let a = Scalar::from_bits(1);
    let b = Scalar::from_bits(2);
    let c = Scalar::from_bits(3);
    let d = Scalar::from_bits(4);
    assert_eq!(Vec2::new(a, b), Vec2 { x: a, y: b });
    assert_eq!(Vec2::from_bits(1, 2), Vec2 { x: a, y: b });
    assert_ne!(Vec2::from_bits(1, 2), Vec2::from_bits(2, 1));
    assert_eq!(Vec4::new(a, b, c, d), Vec4 { x: a, y: b, z: c, w: d });
    assert_eq!(Vec4::from_bits(1, 2, 3, 4), Vec4 { x: a, y: b, z: c, w: d });
    assert_eq!(Vec2::zeros(), v2(0.0, 0.0));
    assert_eq!(Vec2::ones(), v2(1.0, 1.0));
    assert_eq!(Vec4::opaque_white(), v4(1.0, 1.0, 1.0, 1.0));
    assert_eq!(Vec4::fully_transparent(), v4(0.0, 0.0, 0.0, 0.0));
}

#[test]
fn texture_id_keeps_its_number() {
    assert_eq!(TextureId::new(0).id(), 0);
    assert_eq!(TextureId::new(42).id(), 42);
    assert_eq!(TextureId::new(usize::MAX).id(), usize::MAX);
    assert_ne!(TextureId::new(1), TextureId::new(2));
}

#[test]
fn fresh_image_has_the_defaults() {
    let ui = Ui::new();
    for (texture, size) in [(0usize, v2(0.0, 0.0)), (7, v2(32.0, 32.0)), (usize::MAX, v2(-1.0, 1e9))] {
        let build = Image::new(TextureId::new(texture), size).build(&ui);
        assert_eq!(
            build.calls(),
            &vec![image_call(
                texture,
                size,
                v2(0.0, 0.0),
                v2(1.0, 1.0),
                v4(1.0, 1.0, 1.0, 1.0),
                v4(0.0, 0.0, 0.0, 0.0),
            )]
        );
    }
}

#[test]
fn image_build_forwards_exactly_one_draw_call() {
    let ui = Ui::new();
    let h = TextureId::new(0xBEEF);
    let mut build = Image::new(h, v2(32.0, 32.0)).build(&ui);
    assert_eq!(build.calls().len(), 1);
    assert!(!build.is_finished());
    assert_eq!(build.made(), 0);
    let expected = Call::Image {
        texture_id: h,
        size: v2(32.0, 32.0),
        uv0: v2(0.0, 0.0),
        uv1: v2(1.0, 1.0),
        tint_col: v4(1.0, 1.0, 1.0, 1.0),
        border_col: v4(0.0, 0.0, 0.0, 0.0),
    };
    assert_eq!(build.pending(), Some(&expected));
    build.resume(true);
    assert_eq!(build.pending(), None);
    assert!(build.is_finished());
    assert_eq!(build.made(), 1);
    assert!(!build.clicked());
}

#[test]
fn image_setters_change_one_field_each() {
    let ui = Ui::new();
    let base = Image::new(TextureId::new(3), v2(10.0, 20.0));
    let d_uv0 = v2(0.0, 0.0);
    let d_uv1 = v2(1.0, 1.0);
    let d_tint = v4(1.0, 1.0, 1.0, 1.0);
    let d_border = v4(0.0, 0.0, 0.0, 0.0);

    let size = v2(64.0, 48.0);
    assert_eq!(
        base.size(size).build(&ui).calls(),
        &vec![image_call(3, size, d_uv0, d_uv1, d_tint, d_border)]
    );
    let uv0 = v2(0.25, 0.5);
    assert_eq!(
        base.uv0(uv0).build(&ui).calls(),
        &vec![image_call(3, v2(10.0, 20.0), uv0, d_uv1, d_tint, d_border)]
    );
    let uv1 = v2(0.75, 0.5);
    assert_eq!(
        base.uv1(uv1).build(&ui).calls(),
        &vec![image_call(3, v2(10.0, 20.0), d_uv0, uv1, d_tint, d_border)]
    );
    let tint = v4(1.0, 0.5, 0.25, 0.125);
    assert_eq!(
        base.tint_col(tint).build(&ui).calls(),
        &vec![image_call(3, v2(10.0, 20.0), d_uv0, d_uv1, tint, d_border)]
    );
    let border = v4(0.0, 1.0, 0.0, 1.0);
    assert_eq!(
        base.border_col(border).build(&ui).calls(),
        &vec![image_call(3, v2(10.0, 20.0), d_uv0, d_uv1, d_tint, border)]
    );
}

#[test]
fn image_setters_of_different_fields_commute() {
    let ui = Ui::new();
    let base = Image::new(TextureId::new(9), v2(8.0, 8.0));
    let uv0 = v2(0.1, 0.2);
    let tint = v4(0.3, 0.4, 0.5, 0.6);
    let one = base.uv0(uv0).tint_col(tint).build(&ui);
    let other = base.tint_col(tint).uv0(uv0).build(&ui);
    assert_eq!(one.calls(), other.calls());
    assert_eq!(
        one.calls(),
        &vec![image_call(9, v2(8.0, 8.0), uv0, v2(1.0, 1.0), tint, v4(0.0, 0.0, 0.0, 0.0))]
    );

    let uv1 = v2(0.9, 0.8);
    let border = v4(1.0, 0.0, 0.0, 1.0);
    let size = v2(5.0, 6.0);
    let forward = base.size(size).uv0(uv0).uv1(uv1).tint_col(tint).border_col(border).build(&ui);
    let backward = base.border_col(border).tint_col(tint).uv1(uv1).uv0(uv0).size(size).build(&ui);
    assert_eq!(forward.calls(), backward.calls());
    assert_eq!(forward.calls(), &vec![image_call(9, size, uv0, uv1, tint, border)]);
}

#[test]
fn image_setter_called_twice_keeps_the_last_value() {
    let ui = Ui::new();
    let base = Image::new(TextureId::new(1), v2(1.0, 1.0));
    let build = base.uv0(v2(0.5, 0.5)).uv0(v2(0.25, 0.75)).build(&ui);
    assert_eq!(
        build.calls(),
        &vec![image_call(
            1,
            v2(1.0, 1.0),
            v2(0.25, 0.75),
            v2(1.0, 1.0),
            v4(1.0, 1.0, 1.0, 1.0),
            v4(0.0, 0.0, 0.0, 0.0),
        )]
    );
}

#[test]
fn image_takes_degenerate_values_as_they_are() {
    let ui = Ui::new();
    let uv0 = v2(2.0, -3.0);
    let uv1 = v2(-1.0, f32::NAN);
    let tint = v4(5.0, -5.0, f32::INFINITY, 0.0);
    let build = Image::new(TextureId::new(0), v2(0.0, -4.0)).uv0(uv0).uv1(uv1).tint_col(tint).build(&ui);
    assert_eq!(
        build.calls(),
        &vec![image_call(0, v2(0.0, -4.0), uv0, uv1, tint, v4(0.0, 0.0, 0.0, 0.0))]
    );
}

#[test]
fn image_builder_can_be_copied_and_built_twice() {
    let ui = Ui::new();
    let image = Image::new(TextureId::new(4), v2(2.0, 2.0));
    let copy = image;
    assert_eq!(image.build(&ui).calls(), copy.build(&ui).calls());
}
