//! The builders of an image button: the one that is known by a string, and
//! the older one that is known by its texture.

use crate::building::{
    lemma_run_finishes, lemma_run_reports_button, Build, BuildView,
};
use crate::call::{
    button_calls, id_pops, id_pushes, image_calls, lemma_push_call, nesting, style_pops,
    style_pushes, views, well_nested, Call, CallView, Scope, StyleVar,
};
use crate::math::{Vec2, Vec4};
use crate::texture::TextureId;
use crate::ui::Ui;
use vstd::prelude::*;

verus! {

/// What an [`ImageButton`] is: the string it is known by, the texture it
/// shows and how it shows it.
pub struct ImageButtonView {
    pub str_id: Seq<char>,
    pub texture_id: usize,
    pub size: Vec2,
    pub uv0: Vec2,
    pub uv1: Vec2,
    pub bg_col: Vec4,
    pub tint_col: Vec4,
}

impl ImageButtonView {
    /// The button of the given identity, texture and size that shows the
    /// whole texture, untinted and on no background.
    pub open spec fn new_with_id(str_id: Seq<char>, texture_id: usize, size: Vec2)
        -> ImageButtonView {
        ImageButtonView {
            str_id,
            texture_id,
            size,
            uv0: Vec2::zero(),
            uv1: Vec2::one(),
            bg_col: Vec4::transparent(),
            tint_col: Vec4::white(),
        }
    }

    /// This button with another size.
    pub open spec fn size(self, size: Vec2) -> ImageButtonView {
        ImageButtonView { size, ..self }
    }

    /// This button with another first corner of the texture rectangle.
    pub open spec fn uv0(self, uv0: Vec2) -> ImageButtonView {
        ImageButtonView { uv0, ..self }
    }

    /// This button with another second corner of the texture rectangle.
    pub open spec fn uv1(self, uv1: Vec2) -> ImageButtonView {
        ImageButtonView { uv1, ..self }
    }

    /// This button with another background colour.
    pub open spec fn background_col(self, bg_col: Vec4) -> ImageButtonView {
        ImageButtonView { bg_col, ..self }
    }

    /// This button with another tint.
    pub open spec fn tint_col(self, tint_col: Vec4) -> ImageButtonView {
        ImageButtonView { tint_col, ..self }
    }

    /// The one call that draws this button and asks whether it was clicked.
    pub open spec fn call(self) -> CallView {
        CallView::ImageButton {
            str_id: self.str_id,
            texture_id: self.texture_id,
            size: self.size,
            uv0: self.uv0,
            uv1: self.uv1,
            bg_col: self.bg_col,
            tint_col: self.tint_col,
        }
    }

    /// The calls of a build of this button: the button call and nothing else.
    pub open spec fn calls(self) -> Seq<CallView> {
        seq![self.call()]
    }
}

/// Builder for an image button widget.
///
/// The rendering library tells widgets apart by where they stand and how
/// they are labelled, so two image buttons that look alike would be one
/// button to it. The string given here keeps them apart.
#[derive(Copy, Clone, Debug)]
#[must_use]
pub struct ImageButton<'ui> {
    str_id: &'ui str,
    texture_id: TextureId,
    size: Vec2,
    uv0: Vec2,
    uv1: Vec2,
    bg_col: Vec4,
    tint_col: Vec4,
    /// The frame that this button is built in. Nothing is read from it: the
    /// reference keeps the builder from outliving the frame.
    #[allow(dead_code)]
    ui: &'ui Ui,
}

impl<'ui> View for ImageButton<'ui> {
    type V = ImageButtonView;

    closed spec fn view(&self) -> ImageButtonView {
        ImageButtonView {
            str_id: self.str_id@,
            texture_id: self.texture_id@,
            size: self.size,
            uv0: self.uv0,
            uv1: self.uv1,
            bg_col: self.bg_col,
            tint_col: self.tint_col,
        }
    }
}

impl ImageButton<'static> {
    /// Creates a new builder of the older kind, which is known by its texture,
    /// with the given texture and size.
    pub fn new(texture_id: TextureId, size: Vec2) -> (button: ImageButtonDeprecated)
        ensures
            button@ == ImageButtonDeprecatedView::new(texture_id@, size),
            button@.frame_padding == -1,
    {
        ImageButtonDeprecated {
            texture_id,
            size,
            uv0: Vec2::zeros(),
            uv1: Vec2::ones(),
            frame_padding: -1,
            bg_col: Vec4::fully_transparent(),
            tint_col: Vec4::opaque_white(),
        }
    }
}

impl<'ui> ImageButton<'ui> {
    /// Creates a new image button builder with the given identity, texture
    /// and size, for the frame of `ui`.
    pub fn new_with_id(ui: &'ui Ui, str_id: &'ui str, texture_id: TextureId, size: Vec2) -> (button:
        Self)
        ensures
            button@ == ImageButtonView::new_with_id(str_id@, texture_id@, size),
    {
        ImageButton {
            str_id,
            texture_id,
            size,
            uv0: Vec2::zeros(),
            uv1: Vec2::ones(),
            bg_col: Vec4::fully_transparent(),
            tint_col: Vec4::opaque_white(),
            ui,
        }
    }

    /// Sets the image button size. Kept for callers of old; the size is
    /// better given when the builder is made.
    pub fn size(self, size: Vec2) -> (button: Self)
        ensures
            button@ == self@.size(size),
    {
        ImageButton { size, ..self }
    }

    /// Sets uv0 (default `(0, 0)`).
    pub fn uv0(self, uv0: Vec2) -> (button: Self)
        ensures
            button@ == self@.uv0(uv0),
    {
        ImageButton { uv0, ..self }
    }

    /// Sets uv1 (default `(1, 1)`).
    pub fn uv1(self, uv1: Vec2) -> (button: Self)
        ensures
            button@ == self@.uv1(uv1),
    {
        ImageButton { uv1, ..self }
    }

    /// Sets the background color (default: no background color).
    pub fn background_col(self, bg_col: Vec4) -> (button: Self)
        ensures
            button@ == self@.background_col(bg_col),
    {
        ImageButton { bg_col, ..self }
    }

    /// Sets the tint color (default: no tint color).
    pub fn tint_col(self, tint_col: Vec4) -> (button: Self)
        ensures
            button@ == self@.tint_col(tint_col),
    {
        ImageButton { tint_col, ..self }
    }

    /// Builds the image button: one button call with the identity and the
    /// six parameters as they stand, still to be made. Once it has been made,
    /// the build says what the rendering library answered.
    pub fn build(self) -> (build: Build)
        ensures
            build@ == BuildView::start(self@.calls()),
    {
        let mut calls: Vec<Call> = Vec::new();
        calls.push(
            Call::ImageButton {
                str_id: self.str_id.to_owned(),
                texture_id: self.texture_id,
                size: self.size,
                uv0: self.uv0,
                uv1: self.uv1,
                bg_col: self.bg_col,
                tint_col: self.tint_col,
            },
        );
        assert(views(calls@) =~= self@.calls());
        Build::new(calls)
    }
}

/// The label under which every button of the older kind is drawn, inside the
/// identity scope of its texture.
pub open spec fn legacy_label() -> Seq<char> {
    "#image"@
}

/// What an [`ImageButtonDeprecated`] is: the texture it shows and is known
/// by, how it shows it, and the padding of its frame.
pub struct ImageButtonDeprecatedView {
    pub texture_id: usize,
    pub size: Vec2,
    pub uv0: Vec2,
    pub uv1: Vec2,
    pub frame_padding: i32,
    pub bg_col: Vec4,
    pub tint_col: Vec4,
}

impl ImageButtonDeprecatedView {
    /// The button of the given texture and size that shows the whole texture,
    /// untinted, on no background and with the padding of the style.
    pub open spec fn new(texture_id: usize, size: Vec2) -> ImageButtonDeprecatedView {
        ImageButtonDeprecatedView {
            texture_id,
            size,
            uv0: Vec2::zero(),
            uv1: Vec2::one(),
            frame_padding: -1i32,
            bg_col: Vec4::transparent(),
            tint_col: Vec4::white(),
        }
    }

    /// This button with another size.
    pub open spec fn size(self, size: Vec2) -> ImageButtonDeprecatedView {
        ImageButtonDeprecatedView { size, ..self }
    }

    /// This button with another first corner of the texture rectangle.
    pub open spec fn uv0(self, uv0: Vec2) -> ImageButtonDeprecatedView {
        ImageButtonDeprecatedView { uv0, ..self }
    }

    /// This button with another second corner of the texture rectangle.
    pub open spec fn uv1(self, uv1: Vec2) -> ImageButtonDeprecatedView {
        ImageButtonDeprecatedView { uv1, ..self }
    }

    /// This button with another background colour.
    pub open spec fn background_col(self, bg_col: Vec4) -> ImageButtonDeprecatedView {
        ImageButtonDeprecatedView { bg_col, ..self }
    }

    /// This button with another tint.
    pub open spec fn tint_col(self, tint_col: Vec4) -> ImageButtonDeprecatedView {
        ImageButtonDeprecatedView { tint_col, ..self }
    }

    /// This button with another frame padding.
    pub open spec fn frame_padding(self, frame_padding: i32) -> ImageButtonDeprecatedView {
        ImageButtonDeprecatedView { frame_padding, ..self }
    }

    /// Whether a build of this button overrides the frame padding of the
    /// style: it does unless the padding is negative.
    pub open spec fn overrides_padding(self) -> bool {
        self.frame_padding >= 0
    }

    /// The call that opens the identity scope of this button's texture.
    pub open spec fn push_id(self) -> CallView {
        CallView::PushId { key: self.texture_id }
    }

    /// The call that overrides the frame padding with this button's, along
    /// both axes.
    pub open spec fn push_padding(self) -> CallView {
        CallView::PushStyleVar {
            var: StyleVar::FramePadding { x: self.frame_padding, y: self.frame_padding },
        }
    }

    /// The call that draws this button and asks whether it was clicked.
    pub open spec fn call(self) -> CallView {
        CallView::ImageButton {
            str_id: legacy_label(),
            texture_id: self.texture_id,
            size: self.size,
            uv0: self.uv0,
            uv1: self.uv1,
            bg_col: self.bg_col,
            tint_col: self.tint_col,
        }
    }

    /// The calls of a build of this button. The button call stands inside
    /// the identity scope of the texture; where the padding is overridden,
    /// the override stands inside that scope and holds for the button call
    /// alone.
    pub open spec fn calls(self) -> Seq<CallView> {
        if self.overrides_padding() {
            seq![
                self.push_id(),
                self.push_padding(),
                self.call(),
                CallView::PopStyleVar { count: 1 },
                CallView::PopId,
            ]
        } else {
            seq![self.push_id(), self.call(), CallView::PopId]
        }
    }
}

/// Builder for an image button widget that is known by its texture.
///
/// This is the older way to make an image button. The button takes its
/// identity from the handle of its texture, so two such buttons with the same
/// texture in the same scope are one button to the rendering library,
/// however else they differ. Where that matters, use [`ImageButton`].
#[derive(Copy, Clone, Debug)]
#[must_use]
pub struct ImageButtonDeprecated {
    texture_id: TextureId,
    size: Vec2,
    uv0: Vec2,
    uv1: Vec2,
    frame_padding: i32,
    bg_col: Vec4,
    tint_col: Vec4,
}

impl View for ImageButtonDeprecated {
    type V = ImageButtonDeprecatedView;

    closed spec fn view(&self) -> ImageButtonDeprecatedView {
        ImageButtonDeprecatedView {
            texture_id: self.texture_id@,
            size: self.size,
            uv0: self.uv0,
            uv1: self.uv1,
            frame_padding: self.frame_padding,
            bg_col: self.bg_col,
            tint_col: self.tint_col,
        }
    }
}

impl ImageButtonDeprecated {
    /// Sets the image button size. Kept for callers of old; the size is
    /// better given when the builder is made.
    pub fn size(self, size: Vec2) -> (button: Self)
        ensures
            button@ == self@.size(size),
    {
        ImageButtonDeprecated { size, ..self }
    }

    /// Sets uv0 (default `(0, 0)`).
    pub fn uv0(self, uv0: Vec2) -> (button: Self)
        ensures
            button@ == self@.uv0(uv0),
    {
        ImageButtonDeprecated { uv0, ..self }
    }

    /// Sets uv1 (default `(1, 1)`).
    pub fn uv1(self, uv1: Vec2) -> (button: Self)
        ensures
            button@ == self@.uv1(uv1),
    {
        ImageButtonDeprecated { uv1, ..self }
    }

    /// Sets the background color (default: no background color).
    pub fn background_col(self, bg_col: Vec4) -> (button: Self)
        ensures
            button@ == self@.background_col(bg_col),
    {
        ImageButtonDeprecated { bg_col, ..self }
    }

    /// Sets the tint color (default: no tint color).
    pub fn tint_col(self, tint_col: Vec4) -> (button: Self)
        ensures
            button@ == self@.tint_col(tint_col),
    {
        ImageButtonDeprecated { tint_col, ..self }
    }

    /// Sets the frame padding (default: uses frame padding from style).
    ///
    /// - `< 0`: uses frame padding from style (default)
    /// - `= 0`: no framing
    /// - `> 0`: set framing size
    pub fn frame_padding(self, frame_padding: i32) -> (button: Self)
        ensures
            button@ == self@.frame_padding(frame_padding),
    {
        ImageButtonDeprecated { frame_padding, ..self }
    }

    /// Builds the image button: the button call inside the identity scope of
    /// the texture and, unless the padding is negative, inside an override of
    /// the frame padding; all still to be made. Once they have been made, the
    /// build says what the rendering library answered to the button call.
    pub fn build(self, _ui: &Ui) -> (build: Build)
        ensures
            build@ == BuildView::start(self@.calls()),
    {
        let mut calls: Vec<Call> = Vec::new();
        calls.push(Call::PushId { key: self.texture_id.id() });
        if self.frame_padding >= 0 {
            calls.push(
                Call::PushStyleVar {
                    var: StyleVar::FramePadding { x: self.frame_padding, y: self.frame_padding },
                },
            );
        }
        calls.push(
            Call::ImageButton {
                str_id: "#image".to_owned(),
                texture_id: self.texture_id,
                size: self.size,
                uv0: self.uv0,
                uv1: self.uv1,
                bg_col: self.bg_col,
                tint_col: self.tint_col,
            },
        );
        if self.frame_padding >= 0 {
            calls.push(Call::PopStyleVar { count: 1 });
        }
        calls.push(Call::PopId);
        assert(views(calls@) =~= self@.calls());
        Build::new(calls)
    }
}

/// Setters of different fields of an image button can be called in either
/// order: the button is the same.
pub proof fn lemma_setters_commute(
    button: ImageButtonView,
    size: Vec2,
    uv0: Vec2,
    uv1: Vec2,
    bg_col: Vec4,
    tint_col: Vec4,
)
    ensures
        button.size(size).uv0(uv0) == button.uv0(uv0).size(size),
        button.size(size).uv1(uv1) == button.uv1(uv1).size(size),
        button.size(size).background_col(bg_col) == button.background_col(bg_col).size(size),
        button.size(size).tint_col(tint_col) == button.tint_col(tint_col).size(size),
        button.uv0(uv0).uv1(uv1) == button.uv1(uv1).uv0(uv0),
        button.uv0(uv0).background_col(bg_col) == button.background_col(bg_col).uv0(uv0),
        button.uv0(uv0).tint_col(tint_col) == button.tint_col(tint_col).uv0(uv0),
        button.uv1(uv1).background_col(bg_col) == button.background_col(bg_col).uv1(uv1),
        button.uv1(uv1).tint_col(tint_col) == button.tint_col(tint_col).uv1(uv1),
        button.background_col(bg_col).tint_col(tint_col) == button.tint_col(
            tint_col,
        ).background_col(bg_col),
{
}

/// A build of an image button makes one call, the button call with the
/// button's identity and six parameters. It opens and closes no scope.
pub proof fn lemma_build_calls_once(button: ImageButtonView)
    ensures
        button.calls().len() == 1,
        button.calls()[0] == button.call(),
        button_calls(button.calls()) == 1,
        image_calls(button.calls()) == 0,
        id_pushes(button.calls()) == 0 && id_pops(button.calls()) == 0,
        style_pushes(button.calls()) == 0 && style_pops(button.calls()) == 0,
        well_nested(button.calls()),
{
    let none = Seq::<CallView>::empty();
    lemma_push_call(none, button.call());
    assert(button.calls() =~= none.push(button.call()));
}

/// A build of an image button is finished once its one call has been made,
/// and reports what came back, unchanged.
pub proof fn lemma_build_reports_answer(button: ImageButtonView, answer: bool)
    ensures
        BuildView::start(button.calls()).run(seq![answer]).finished(),
        BuildView::start(button.calls()).run(seq![answer]).clicked == answer,
{
    let answers = seq![answer];
    lemma_run_finishes(button.calls(), answers);
    lemma_run_reports_button(button.calls(), answers, 0, 1);
    assert(answers.take(1) =~= answers);
}

/// Setters of different fields of a button of the older kind can be called
/// in either order: the button is the same.
pub proof fn lemma_legacy_setters_commute(
    button: ImageButtonDeprecatedView,
    size: Vec2,
    uv0: Vec2,
    uv1: Vec2,
    bg_col: Vec4,
    tint_col: Vec4,
    frame_padding: i32,
)
    ensures
        button.size(size).uv0(uv0) == button.uv0(uv0).size(size),
        button.size(size).uv1(uv1) == button.uv1(uv1).size(size),
        button.size(size).background_col(bg_col) == button.background_col(bg_col).size(size),
        button.size(size).tint_col(tint_col) == button.tint_col(tint_col).size(size),
        button.size(size).frame_padding(frame_padding) == button.frame_padding(
            frame_padding,
        ).size(size),
        button.uv0(uv0).uv1(uv1) == button.uv1(uv1).uv0(uv0),
        button.uv0(uv0).background_col(bg_col) == button.background_col(bg_col).uv0(uv0),
        button.uv0(uv0).tint_col(tint_col) == button.tint_col(tint_col).uv0(uv0),
        button.uv0(uv0).frame_padding(frame_padding) == button.frame_padding(frame_padding).uv0(
            uv0,
        ),
        button.uv1(uv1).background_col(bg_col) == button.background_col(bg_col).uv1(uv1),
        button.uv1(uv1).tint_col(tint_col) == button.tint_col(tint_col).uv1(uv1),
        button.uv1(uv1).frame_padding(frame_padding) == button.frame_padding(frame_padding).uv1(
            uv1,
        ),
        button.background_col(bg_col).tint_col(tint_col) == button.tint_col(
            tint_col,
        ).background_col(bg_col),
        button.background_col(bg_col).frame_padding(frame_padding) == button.frame_padding(
            frame_padding,
        ).background_col(bg_col),
        button.tint_col(tint_col).frame_padding(frame_padding) == button.frame_padding(
            frame_padding,
        ).tint_col(tint_col),
{
}

/// A button of the older kind inherits the padding of the style until it is
/// given one: a build of a fresh one pushes no style override.
pub proof fn lemma_legacy_default_padding(texture_id: usize, size: Vec2)
    ensures
        ImageButtonDeprecatedView::new(texture_id, size).frame_padding == -1,
        !ImageButtonDeprecatedView::new(texture_id, size).overrides_padding(),
        style_pushes(ImageButtonDeprecatedView::new(texture_id, size).calls()) == 0,
{
    lemma_legacy_padding_override(ImageButtonDeprecatedView::new(texture_id, size));
}

/// A build of a button of the older kind pushes the frame padding as a
/// style override if and only if the padding is not negative, and then it
/// takes the override back: it pushes once and pops once, or does neither.
pub proof fn lemma_legacy_padding_override(button: ImageButtonDeprecatedView)
    ensures
        style_pushes(button.calls()) == style_pops(button.calls()),
        style_pushes(button.calls()) == 1 <==> button.frame_padding >= 0,
        style_pushes(button.calls()) == 0 <==> button.frame_padding < 0,
        button.calls().contains(button.push_padding()) <==> button.frame_padding >= 0,
        button.calls().contains(CallView::PopStyleVar { count: 1 }) <==> button.frame_padding
            >= 0,
        forall|i: int|
            0 <= i < button.calls().len() && (#[trigger] button.calls()[i]) is PushStyleVar
                ==> button.calls()[i] == button.push_padding(),
{
    lemma_legacy_unfolded(button);
    if button.overrides_padding() {
        assert(button.calls()[1] == button.push_padding());
        assert(button.calls()[3] == CallView::PopStyleVar { count: 1 });
    }
}

/// A build of a button of the older kind opens the identity scope of the
/// texture once and closes it once, whether or not it overrides the padding.
/// Its scopes are nested: what was opened last is closed first, and when the
/// build is over every scope is as it was before.
pub proof fn lemma_legacy_scopes_paired(button: ImageButtonDeprecatedView)
    ensures
        id_pushes(button.calls()) == 1,
        id_pops(button.calls()) == 1,
        button.calls().first() == button.push_id(),
        button.calls().last() == CallView::PopId,
        well_nested(button.calls()),
        button_calls(button.calls()) == 1,
        image_calls(button.calls()) == 0,
{
    lemma_legacy_unfolded(button);
}

/// Where the button call stands among the calls of a build of a button of
/// the older kind.
pub open spec fn legacy_button_index(button: ImageButtonDeprecatedView) -> int {
    if button.overrides_padding() {
        2
    } else {
        1
    }
}

/// A build of a button of the older kind that has made all its calls reports
/// what came back from the button call, unchanged, whatever came back from
/// the others.
pub proof fn lemma_legacy_build_reports_answer(
    button: ImageButtonDeprecatedView,
    answers: Seq<bool>,
)
    requires
        answers.len() == button.calls().len(),
    ensures
        button.calls()[legacy_button_index(button)] == button.call(),
        BuildView::start(button.calls()).run(answers).finished(),
        BuildView::start(button.calls()).run(answers).clicked == answers[legacy_button_index(
            button,
        )],
{
    let calls = button.calls();
    lemma_run_finishes(calls, answers);
    lemma_run_reports_button(calls, answers, legacy_button_index(button), calls.len() as int);
    assert(answers.take(calls.len() as int) =~= answers);
}

/// The counts and the open scopes of the calls of a build of a button of the
/// older kind, found call by call.
proof fn lemma_legacy_unfolded(button: ImageButtonDeprecatedView)
    ensures
        id_pushes(button.calls()) == 1,
        id_pops(button.calls()) == 1,
        button_calls(button.calls()) == 1,
        image_calls(button.calls()) == 0,
        style_pushes(button.calls()) == if button.overrides_padding() {
            1nat
        } else {
            0nat
        },
        style_pops(button.calls()) == style_pushes(button.calls()),
        well_nested(button.calls()),
{
    let c0 = Seq::<CallView>::empty();
    let c1 = c0.push(button.push_id());
    lemma_push_call(c0, button.push_id());
    assert(nesting(c1) == Some(seq![Scope::Id]));
    if button.overrides_padding() {
        let c2 = c1.push(button.push_padding());
        let c3 = c2.push(button.call());
        let c4 = c3.push(CallView::PopStyleVar { count: 1 });
        let c5 = c4.push(CallView::PopId);
        lemma_push_call(c1, button.push_padding());
        lemma_push_call(c2, button.call());
        lemma_push_call(c3, CallView::PopStyleVar { count: 1 });
        lemma_push_call(c4, CallView::PopId);
        let inner = seq![Scope::Id, Scope::Style];
        assert(nesting(c2) == Some(inner));
        assert(inner.take(inner.len() - 1) =~= seq![Scope::Id]);
        assert(nesting(c4) == Some(seq![Scope::Id]));
        assert(seq![Scope::Id].drop_last() =~= Seq::<Scope>::empty());
        assert(button.calls() =~= c5);
    } else {
        let c2 = c1.push(button.call());
        let c3 = c2.push(CallView::PopId);
        lemma_push_call(c1, button.call());
        lemma_push_call(c2, CallView::PopId);
        assert(seq![Scope::Id].drop_last() =~= Seq::<Scope>::empty());
        assert(button.calls() =~= c3);
    }
}

} // verus!
