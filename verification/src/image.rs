//! The builder of an image widget.

use crate::building::{lemma_run_finishes, lemma_run_without_button, Build, BuildView};
use crate::call::{
    button_calls, id_pops, id_pushes, image_calls, lemma_push_call, style_pops, style_pushes,
    views, well_nested, Call, CallView,
};
use crate::math::{Vec2, Vec4};
use crate::texture::TextureId;
use crate::ui::Ui;
use vstd::prelude::*;

verus! {

/// What an [`Image`] is: the texture it shows and how it shows it.
pub struct ImageView {
    pub texture_id: usize,
    pub size: Vec2,
    pub uv0: Vec2,
    pub uv1: Vec2,
    pub tint_col: Vec4,
    pub border_col: Vec4,
}

impl ImageView {
    /// The image of the given texture and size that shows the whole texture,
    /// untinted and without a border.
    pub open spec fn new(texture_id: usize, size: Vec2) -> ImageView {
        ImageView {
            texture_id,
            size,
            uv0: Vec2::zero(),
            uv1: Vec2::one(),
            tint_col: Vec4::white(),
            border_col: Vec4::transparent(),
        }
    }

    /// This image with another size.
    pub open spec fn size(self, size: Vec2) -> ImageView {
        ImageView { size, ..self }
    }

    /// This image with another first corner of the texture rectangle.
    pub open spec fn uv0(self, uv0: Vec2) -> ImageView {
        ImageView { uv0, ..self }
    }

    /// This image with another second corner of the texture rectangle.
    pub open spec fn uv1(self, uv1: Vec2) -> ImageView {
        ImageView { uv1, ..self }
    }

    /// This image with another tint.
    pub open spec fn tint_col(self, tint_col: Vec4) -> ImageView {
        ImageView { tint_col, ..self }
    }

    /// This image with another border colour.
    pub open spec fn border_col(self, border_col: Vec4) -> ImageView {
        ImageView { border_col, ..self }
    }

    /// The one call that draws this image.
    pub open spec fn call(self) -> CallView {
        CallView::Image {
            texture_id: self.texture_id,
            size: self.size,
            uv0: self.uv0,
            uv1: self.uv1,
            tint_col: self.tint_col,
            border_col: self.border_col,
        }
    }

    /// The calls of a build of this image: the draw call and nothing else.
    pub open spec fn calls(self) -> Seq<CallView> {
        seq![self.call()]
    }
}

/// Builder for an image widget.
///
/// No setter looks at what it is given: a rectangle may be empty or turned
/// over and a colour may lie outside the unit range. What is then drawn is up
/// to the rendering library.
#[derive(Copy, Clone, Debug)]
#[must_use]
pub struct Image {
    texture_id: TextureId,
    size: Vec2,
    uv0: Vec2,
    uv1: Vec2,
    tint_col: Vec4,
    border_col: Vec4,
}

impl View for Image {
    type V = ImageView;

    closed spec fn view(&self) -> ImageView {
        ImageView {
            texture_id: self.texture_id@,
            size: self.size,
            uv0: self.uv0,
            uv1: self.uv1,
            tint_col: self.tint_col,
            border_col: self.border_col,
        }
    }
}

impl Image {
    /// Creates a new image builder with the given texture and size.
    pub fn new(texture_id: TextureId, size: Vec2) -> (image: Image)
        ensures
            image@ == ImageView::new(texture_id@, size),
            image@.uv0 == Vec2::zero(),
            image@.uv1 == Vec2::one(),
            image@.tint_col == Vec4::white(),
            image@.border_col == Vec4::transparent(),
    {
        Image {
            texture_id,
            size,
            uv0: Vec2::zeros(),
            uv1: Vec2::ones(),
            tint_col: Vec4::opaque_white(),
            border_col: Vec4::fully_transparent(),
        }
    }

    /// Sets the image size. Kept for callers of old; the size is better given
    /// to `new`.
    pub fn size(self, size: Vec2) -> (image: Image)
        ensures
            image@ == self@.size(size),
    {
        Image { size, ..self }
    }

    /// Sets uv0 (default `(0, 0)`).
    pub fn uv0(self, uv0: Vec2) -> (image: Image)
        ensures
            image@ == self@.uv0(uv0),
    {
        Image { uv0, ..self }
    }

    /// Sets uv1 (default `(1, 1)`).
    pub fn uv1(self, uv1: Vec2) -> (image: Image)
        ensures
            image@ == self@.uv1(uv1),
    {
        Image { uv1, ..self }
    }

    /// Sets the tint color (default: no tint color).
    pub fn tint_col(self, tint_col: Vec4) -> (image: Image)
        ensures
            image@ == self@.tint_col(tint_col),
    {
        Image { tint_col, ..self }
    }

    /// Sets the border color (default: no border).
    pub fn border_col(self, border_col: Vec4) -> (image: Image)
        ensures
            image@ == self@.border_col(border_col),
    {
        Image { border_col, ..self }
    }

    /// Builds the image: one draw call with the six parameters as they stand,
    /// still to be made.
    pub fn build(self, _ui: &Ui) -> (build: Build)
        ensures
            build@ == BuildView::start(self@.calls()),
    {
        let mut calls: Vec<Call> = Vec::new();
        calls.push(
            Call::Image {
                texture_id: self.texture_id,
                size: self.size,
                uv0: self.uv0,
                uv1: self.uv1,
                tint_col: self.tint_col,
                border_col: self.border_col,
            },
        );
        assert(views(calls@) =~= self@.calls());
        Build::new(calls)
    }
}

/// Setters of different fields can be called in either order: the image is
/// the same.
pub proof fn lemma_setters_commute(
    image: ImageView,
    size: Vec2,
    uv0: Vec2,
    uv1: Vec2,
    tint_col: Vec4,
    border_col: Vec4,
)
    ensures
        image.size(size).uv0(uv0) == image.uv0(uv0).size(size),
        image.size(size).uv1(uv1) == image.uv1(uv1).size(size),
        image.size(size).tint_col(tint_col) == image.tint_col(tint_col).size(size),
        image.size(size).border_col(border_col) == image.border_col(border_col).size(size),
        image.uv0(uv0).uv1(uv1) == image.uv1(uv1).uv0(uv0),
        image.uv0(uv0).tint_col(tint_col) == image.tint_col(tint_col).uv0(uv0),
        image.uv0(uv0).border_col(border_col) == image.border_col(border_col).uv0(uv0),
        image.uv1(uv1).tint_col(tint_col) == image.tint_col(tint_col).uv1(uv1),
        image.uv1(uv1).border_col(border_col) == image.border_col(border_col).uv1(uv1),
        image.tint_col(tint_col).border_col(border_col) == image.border_col(border_col).tint_col(
            tint_col,
        ),
{
}

/// A build of an image makes one call, the draw call with the image's six
/// parameters. It opens and closes no scope, and asks for no click.
pub proof fn lemma_build_draws_once(image: ImageView)
    ensures
        image.calls().len() == 1,
        image.calls()[0] == image.call(),
        image_calls(image.calls()) == 1,
        button_calls(image.calls()) == 0,
        id_pushes(image.calls()) == 0 && id_pops(image.calls()) == 0,
        style_pushes(image.calls()) == 0 && style_pops(image.calls()) == 0,
        well_nested(image.calls()),
{
    let none = Seq::<CallView>::empty();
    lemma_push_call(none, image.call());
    assert(image.calls() =~= none.push(image.call()));
}

/// A build of an image is finished once its one call has been made, and
/// reports no click whatever came back.
pub proof fn lemma_build_runs(image: ImageView, answer: bool)
    ensures
        BuildView::start(image.calls()).run(seq![answer]).finished(),
        !BuildView::start(image.calls()).run(seq![answer]).clicked,
{
    lemma_run_finishes(image.calls(), seq![answer]);
    lemma_run_without_button(image.calls(), seq![answer]);
}

} // verus!
