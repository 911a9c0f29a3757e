use imgui_image::{Build, Call, ImageButton, TextureId, Ui, Vec2, Vec4};

fn pair(x: f32, y: f32) -> Vec2 {
    Vec2::from_bits(x.to_bits(), y.to_bits())
}

fn c4(x: f32, y: f32, z: f32, w: f32) -> Vec4 {
    Vec4::from_bits(x.to_bits(), y.to_bits(), z.to_bits(), w.to_bits())
}

fn button_call(id: &str, texture: usize, size: Vec2, uv0: Vec2, uv1: Vec2, bg: Vec4, tint: Vec4) -> Call {
    Call::ImageButton {
        str_id: id.to_string(),
        texture_id: TextureId::new(texture),
        size,
        uv0,
        uv1,
        bg_col: bg,
        tint_col: tint,
    }
}

fn default_button_call(id: &str, texture: usize, size: Vec2) -> Call {
    button_call(
        id,
        texture,
        size,
        pair(0.0, 0.0),
        pair(1.0, 1.0),
        c4(0.0, 0.0, 0.0, 0.0),
        c4(1.0, 1.0, 1.0, 1.0),
    )
}

/// Makes every call of `build`, answering each with `answer`, and returns
/// what was made.
fn drive(build: &mut Build, answer: bool) -> Vec<Call> {
    let mut made = Vec::new();
    while let Some(call) = build.pending() {
        made.push(call.clone());
        build.resume(answer);
    }
    made
}

#[test]
fn fresh_button_has_the_defaults() {
    let ui = Ui::new();
    let build = ImageButton::new_with_id(&ui, "save", TextureId::new(5), pair(24.0, 12.0)).build();
    assert_eq!(build.calls(), &vec![default_button_call("save", 5, pair(24.0, 12.0))]);
}

#[test]
fn button_build_returns_what_the_call_returns() {
    let ui = Ui::new();
    let h = TextureId::new(77);
    for answer in [true, false] {
        let mut build = ImageButton::new_with_id(&ui, "btn1", h, pair(16.0, 16.0)).build();
        assert!(!build.clicked());
        let made = drive(&mut build, answer);
        assert_eq!(made, vec![default_button_call("btn1", 77, pair(16.0, 16.0))]);
        assert!(build.is_finished());
        assert_eq!(build.clicked(), answer);
    }
}

#[test]
fn button_setters_change_one_field_each() {
    let ui = Ui::new();
    let base = ImageButton::new_with_id(&ui, "b", TextureId::new(2), pair(10.0, 10.0));
    let d_uv0 = pair(0.0, 0.0);
    let d_uv1 = pair(1.0, 1.0);
    let d_bg = c4(0.0, 0.0, 0.0, 0.0);
    let d_tint = c4(1.0, 1.0, 1.0, 1.0);
    let s = pair(10.0, 10.0);

    let size = pair(3.0, 4.0);
    assert_eq!(
        base.size(size).build().calls(),
        &vec![button_call("b", 2, size, d_uv0, d_uv1, d_bg, d_tint)]
    );
    let uv0 = pair(0.5, 0.25);
    assert_eq!(
        base.uv0(uv0).build().calls(),
        &vec![button_call("b", 2, s, uv0, d_uv1, d_bg, d_tint)]
    );
    let uv1 = pair(0.5, 0.75);
    assert_eq!(
        base.uv1(uv1).build().calls(),
        &vec![button_call("b", 2, s, d_uv0, uv1, d_bg, d_tint)]
    );
    let bg = c4(0.1, 0.2, 0.3, 0.4);
    assert_eq!(
        base.background_col(bg).build().calls(),
        &vec![button_call("b", 2, s, d_uv0, d_uv1, bg, d_tint)]
    );
    let tint = c4(0.9, 0.8, 0.7, 0.6);
    assert_eq!(
        base.tint_col(tint).build().calls(),
        &vec![button_call("b", 2, s, d_uv0, d_uv1, d_bg, tint)]
    );
}

#[test]
fn button_setters_of_different_fields_commute() {
    let ui = Ui::new();
    let base = ImageButton::new_with_id(&ui, "b", TextureId::new(2), pair(10.0, 10.0));
    let uv0 = pair(0.5, 0.25);
    let uv1 = pair(0.5, 0.75);
    let bg = c4(0.1, 0.2, 0.3, 0.4);
    let tint = c4(0.9, 0.8, 0.7, 0.6);
    let size = pair(1.0, 2.0);
    assert_eq!(base.uv0(uv0).tint_col(tint).build().calls(), base.tint_col(tint).uv0(uv0).build().calls());
    let forward = base.size(size).uv0(uv0).uv1(uv1).background_col(bg).tint_col(tint).build();
    let backward = base.tint_col(tint).background_col(bg).uv1(uv1).uv0(uv0).size(size).build();
    assert_eq!(forward.calls(), backward.calls());
    assert_eq!(forward.calls(), &vec![button_call("b", 2, size, uv0, uv1, bg, tint)]);
}

#[test]
fn buttons_that_look_alike_differ_by_their_identity() {
    let ui = Ui::new();
    let h = TextureId::new(1);
    let one = ImageButton::new_with_id(&ui, "first", h, pair(8.0, 8.0)).build();
    let two = ImageButton::new_with_id(&ui, "second", h, pair(8.0, 8.0)).build();
    assert_ne!(one.calls(), two.calls());
    assert_eq!(one.calls(), &vec![default_button_call("first", 1, pair(8.0, 8.0))]);
    assert_eq!(two.calls(), &vec![default_button_call("second", 1, pair(8.0, 8.0))]);
}

#[test]
fn button_identity_may_be_empty_or_not_ascii() {
    let ui = Ui::new();
    let h = TextureId::new(1);
    let empty = ImageButton::new_with_id(&ui, "", h, pair(8.0, 8.0)).build();
    assert_eq!(empty.calls(), &vec![default_button_call("", 1, pair(8.0, 8.0))]);
    let other = ImageButton::new_with_id(&ui, "knöpfchen ##1", h, pair(8.0, 8.0)).build();
    assert_eq!(other.calls(), &vec![default_button_call("knöpfchen ##1", 1, pair(8.0, 8.0))]);
}

#[test]
fn image_button_builds_right_away() {
    let ui = Ui::new();
    let h = TextureId::new(11);
    let mut build = ui.image_button("go", h, pair(16.0, 16.0));
    assert_eq!(build.calls(), &vec![default_button_call("go", 11, pair(16.0, 16.0))]);
    drive(&mut build, true);
    assert!(build.clicked());
}

#[test]
fn image_button_config_gives_a_fresh_builder() {
    let ui = Ui::new();
    let h = TextureId::new(11);
    let tint = c4(0.5, 0.5, 0.5, 1.0);
    let build = ui.image_button_config("go", h, pair(16.0, 16.0)).tint_col(tint).build();
    assert_eq!(
        build.calls(),
        &vec![button_call(
            "go",
            11,
            pair(16.0, 16.0),
            pair(0.0, 0.0),
            pair(1.0, 1.0),
            c4(0.0, 0.0, 0.0, 0.0),
            tint,
        )]
    );
}

#[test]
fn image_button_is_config_then_build() {
    let ui = Ui::new();
    for (id, texture, size) in [("btn1", 1usize, pair(16.0, 16.0)), ("", 0, pair(0.0, 0.0)), ("x", usize::MAX, pair(-1.0, 2.5))] {
        let h = TextureId::new(texture);
        for answer in [true, false] {
            let mut direct = ui.image_button(id, h, size);
            let mut configured = ui.image_button_config(id, h, size).build();
            assert_eq!(direct.calls(), configured.calls());
            assert_eq!(drive(&mut direct, answer), drive(&mut configured, answer));
            assert_eq!(direct.clicked(), configured.clicked());
            assert_eq!(direct.clicked(), answer);
        }
    }
}
