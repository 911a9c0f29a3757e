//! The calls that a build forwards to the rendering library.

use crate::math::{Vec2, Vec4};
use crate::texture::TextureId;
use vstd::prelude::*;

verus! {

/// A style variable that can be overridden for a while.
#[derive(Clone, Copy, Debug, PartialEq, Eq, Structural)]
pub enum StyleVar {
    /// Padding between a frame and what it holds, in whole pixels along each
    /// axis.
    FramePadding { x: i32, y: i32 },
}

/// One call into the rendering library, with every argument it is made with.
#[derive(Debug, PartialEq, Eq)]
pub enum Call {
    /// Draw an image. The library answers nothing.
    Image {
        texture_id: TextureId,
        size: Vec2,
        uv0: Vec2,
        uv1: Vec2,
        tint_col: Vec4,
        border_col: Vec4,
    },
    /// Draw an image button, known to the library by `str_id` inside the
    /// identity scopes that are open. The library answers whether the button
    /// was clicked in this frame.
    ImageButton {
        str_id: String,
        texture_id: TextureId,
        size: Vec2,
        uv0: Vec2,
        uv1: Vec2,
        bg_col: Vec4,
        tint_col: Vec4,
    },
    /// Open an identity scope named by a pointer-sized key.
    PushId { key: usize },
    /// Close the identity scope that was opened last.
    PopId,
    /// Override a style variable until the override is popped.
    PushStyleVar { var: StyleVar },
    /// Take back the `count` style overrides that were pushed last.
    PopStyleVar { count: u32 },
}

/// What a [`Call`] is, with its strings as sequences of characters and its
/// texture handles as numbers.
pub enum CallView {
    Image {
        texture_id: usize,
        size: Vec2,
        uv0: Vec2,
        uv1: Vec2,
        tint_col: Vec4,
        border_col: Vec4,
    },
    ImageButton {
        str_id: Seq<char>,
        texture_id: usize,
        size: Vec2,
        uv0: Vec2,
        uv1: Vec2,
        bg_col: Vec4,
        tint_col: Vec4,
    },
    PushId { key: usize },
    PopId,
    PushStyleVar { var: StyleVar },
    PopStyleVar { count: u32 },
}

impl View for Call {
    type V = CallView;

    open spec fn view(&self) -> CallView {
        match *self {
            Call::Image { texture_id, size, uv0, uv1, tint_col, border_col } => CallView::Image {
                texture_id: texture_id@,
                size,
                uv0,
                uv1,
                tint_col,
                border_col,
            },
            Call::ImageButton {
                str_id,
                texture_id,
                size,
                uv0,
                uv1,
                bg_col,
                tint_col,
            } => CallView::ImageButton {
                str_id: str_id@,
                texture_id: texture_id@,
                size,
                uv0,
                uv1,
                bg_col,
                tint_col,
            },
            Call::PushId { key } => CallView::PushId { key },
            Call::PopId => CallView::PopId,
            Call::PushStyleVar { var } => CallView::PushStyleVar { var },
            Call::PopStyleVar { count } => CallView::PopStyleVar { count },
        }
    }
}

impl Clone for Call {
    /// The same call once more.
    fn clone(&self) -> (call: Call)
        ensures
            call@ == self@,
    {
        match self {
            Call::Image { texture_id, size, uv0, uv1, tint_col, border_col } => Call::Image {
                texture_id: *texture_id,
                size: *size,
                uv0: *uv0,
                uv1: *uv1,
                tint_col: *tint_col,
                border_col: *border_col,
            },
            Call::ImageButton {
                str_id,
                texture_id,
                size,
                uv0,
                uv1,
                bg_col,
                tint_col,
            } => Call::ImageButton {
                str_id: str_id.clone(),
                texture_id: *texture_id,
                size: *size,
                uv0: *uv0,
                uv1: *uv1,
                bg_col: *bg_col,
                tint_col: *tint_col,
            },
            Call::PushId { key } => Call::PushId { key: *key },
            Call::PopId => Call::PopId,
            Call::PushStyleVar { var } => Call::PushStyleVar { var: *var },
            Call::PopStyleVar { count } => Call::PopStyleVar { count: *count },
        }
    }
}

impl Call {
    /// Whether the rendering library answers this call with a click.
    pub fn answers_click(&self) -> (b: bool)
        ensures
            b == self@.answers_click(),
    {
        match self {
            Call::ImageButton { .. } => true,
            _ => false,
        }
    }
}

impl CallView {
    /// Whether the rendering library answers this call with a click: only an
    /// image button does.
    pub open spec fn answers_click(self) -> bool {
        self is ImageButton
    }
}

/// The views of a sequence of calls, in the same order.
pub open spec fn views(calls: Seq<Call>) -> Seq<CallView> {
    calls.map_values(|c: Call| c@)
}

/// A scope that a call opens and a later call has to close.
pub enum Scope {
    /// An identity scope.
    Id,
    /// A style override.
    Style,
}

/// The scopes that are open after `call`, when `open` were open before it,
/// innermost last. `None` when the call closes a scope that is not the
/// innermost one, or more scopes than are open.
pub open spec fn nest(open: Seq<Scope>, call: CallView) -> Option<Seq<Scope>> {
    match call {
        CallView::PushId { .. } => Some(open.push(Scope::Id)),
        CallView::PushStyleVar { .. } => Some(open.push(Scope::Style)),
        CallView::PopId => if open.len() > 0 && open.last() == Scope::Id {
            Some(open.drop_last())
        } else {
            None
        },
        CallView::PopStyleVar { count } => if count <= open.len() && (forall|i: int|
            open.len() - count <= i < open.len() ==> open[i] == Scope::Style) {
            Some(open.take(open.len() - count))
        } else {
            None
        },
        _ => Some(open),
    }
}

/// The scopes that are open after all of `calls`, starting with none open.
pub open spec fn nesting(calls: Seq<CallView>) -> Option<Seq<Scope>>
    decreases calls.len(),
{
    if calls.len() == 0 {
        Some(Seq::empty())
    } else {
        match nesting(calls.drop_last()) {
            Some(open) => nest(open, calls.last()),
            None => None,
        }
    }
}

/// Every scope that `calls` open they close again, innermost first, and they
/// close no other.
pub open spec fn well_nested(calls: Seq<CallView>) -> bool {
    nesting(calls) == Some(Seq::<Scope>::empty())
}

/// How many identity scopes `calls` open.
pub open spec fn id_pushes(calls: Seq<CallView>) -> nat
    decreases calls.len(),
{
    if calls.len() == 0 {
        0
    } else {
        id_pushes(calls.drop_last()) + if calls.last() is PushId {
            1nat
        } else {
            0nat
        }
    }
}

/// How many identity scopes `calls` close.
pub open spec fn id_pops(calls: Seq<CallView>) -> nat
    decreases calls.len(),
{
    if calls.len() == 0 {
        0
    } else {
        id_pops(calls.drop_last()) + if calls.last() is PopId {
            1nat
        } else {
            0nat
        }
    }
}

/// How many style overrides `calls` push.
pub open spec fn style_pushes(calls: Seq<CallView>) -> nat
    decreases calls.len(),
{
    if calls.len() == 0 {
        0
    } else {
        style_pushes(calls.drop_last()) + if calls.last() is PushStyleVar {
            1nat
        } else {
            0nat
        }
    }
}

/// How many style overrides `calls` take back.
pub open spec fn style_pops(calls: Seq<CallView>) -> nat
    decreases calls.len(),
{
    if calls.len() == 0 {
        0
    } else {
        style_pops(calls.drop_last()) + match calls.last() {
            CallView::PopStyleVar { count } => count as nat,
            _ => 0nat,
        }
    }
}

/// How many image-button calls are among `calls`.
pub open spec fn button_calls(calls: Seq<CallView>) -> nat
    decreases calls.len(),
{
    if calls.len() == 0 {
        0
    } else {
        button_calls(calls.drop_last()) + if calls.last() is ImageButton {
            1nat
        } else {
            0nat
        }
    }
}

/// How many image calls are among `calls`.
pub open spec fn image_calls(calls: Seq<CallView>) -> nat
    decreases calls.len(),
{
    if calls.len() == 0 {
        0
    } else {
        image_calls(calls.drop_last()) + if calls.last() is Image {
            1nat
        } else {
            0nat
        }
    }
}

/// What one more call at the end adds: each count grows by what the call
/// itself counts for, and the open scopes are those that the call leaves of
/// the scopes open before it.
pub proof fn lemma_push_call(calls: Seq<CallView>, call: CallView)
    ensures
        nesting(calls.push(call)) == match nesting(calls) {
            Some(open) => nest(open, call),
            None => None,
        },
        id_pushes(calls.push(call)) == id_pushes(calls) + if call is PushId {
            1nat
        } else {
            0nat
        },
        id_pops(calls.push(call)) == id_pops(calls) + if call is PopId {
            1nat
        } else {
            0nat
        },
        style_pushes(calls.push(call)) == style_pushes(calls) + if call is PushStyleVar {
            1nat
        } else {
            0nat
        },
        style_pops(calls.push(call)) == style_pops(calls) + match call {
            CallView::PopStyleVar { count } => count as nat,
            _ => 0nat,
        },
        button_calls(calls.push(call)) == button_calls(calls) + if call is ImageButton {
            1nat
        } else {
            0nat
        },
        image_calls(calls.push(call)) == image_calls(calls) + if call is Image {
            1nat
        } else {
            0nat
        },
{
    assert(calls.push(call).drop_last() =~= calls);
}

} // verus!
