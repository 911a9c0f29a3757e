//! The user-interface context of a frame.

use crate::building::{Build, BuildView};
use crate::call::CallView;
use crate::image_button::{ImageButton, ImageButtonView};
use crate::math::{Vec2, Vec4};
use crate::texture::TextureId;
use vstd::prelude::*;

verus! {

/// The user interface of the frame that is being put together.
///
/// Widgets can only be built while a frame is open. A reference to this value
/// stands for that: a builder that holds one cannot outlive the frame.
#[derive(Debug)]
pub struct Ui {}

impl Ui {
    /// The context of a frame that has just been opened.
    pub fn new() -> (ui: Ui) {
        Ui {}
    }

    /// The calls of an image button that is built right away: one button
    /// call that shows the whole texture, untinted and on no background.
    pub open spec fn image_button_calls(str_id: Seq<char>, texture_id: usize, size: Vec2) -> Seq<
        CallView,
    > {
        seq![
            CallView::ImageButton {
                str_id,
                texture_id,
                size,
                uv0: Vec2::zero(),
                uv1: Vec2::one(),
                bg_col: Vec4::transparent(),
                tint_col: Vec4::white(),
            },
        ]
    }

    /// Builds an image button with the given identity, texture and size, and
    /// everything else as it is by default.
    pub fn image_button(&self, str_id: &str, texture_id: TextureId, size: Vec2) -> (build: Build)
        ensures
            build@ == BuildView::start(Self::image_button_calls(str_id@, texture_id@, size)),
    {
        ImageButton::new_with_id(self, str_id, texture_id, size).build()
    }

    /// A builder of an image button with the given identity, texture and
    /// size, to be set up further and then built.
    pub fn image_button_config<'ui>(
        &'ui self,
        str_id: &'ui str,
        texture_id: TextureId,
        size: Vec2,
    ) -> (button: ImageButton<'ui>)
        ensures
            button@ == ImageButtonView::new_with_id(str_id@, texture_id@, size),
    {
        ImageButton::new_with_id(self, str_id, texture_id, size)
    }
}

/// To build an image button right away is to ask for its builder and build
/// that as it comes: the calls are the same, and so is what the build
/// reports for each answer.
pub proof fn lemma_image_button_is_config_build(
    str_id: Seq<char>,
    texture_id: usize,
    size: Vec2,
    answers: Seq<bool>,
)
    ensures
        Ui::image_button_calls(str_id, texture_id, size) == ImageButtonView::new_with_id(
            str_id,
            texture_id,
            size,
        ).calls(),
        BuildView::start(Ui::image_button_calls(str_id, texture_id, size)).run(answers)
            == BuildView::start(
            ImageButtonView::new_with_id(str_id, texture_id, size).calls(),
        ).run(answers),
{
    assert(Ui::image_button_calls(str_id, texture_id, size) =~= ImageButtonView::new_with_id(
        str_id,
        texture_id,
        size,
    ).calls());
}

} // verus!
