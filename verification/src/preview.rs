use vstd::prelude::*;

use crate::bitmap::{BitmapModel, NormalizedBitmap};
use crate::decode::PreviewImage;

verus! {

/// Fixed width, in pixels, of the display surface once the first frame has
/// been decoded.
pub const TARGET_WIDTH: u64 = 1280;

/// Subscription quality of service, fixed for this pipeline: at most this
/// many received, not-yet-consumed messages are retained; older ones are
/// dropped. This shallow buffer is the backpressure mechanism.
pub const HISTORY_DEPTH: usize = 2;

/// Subscription quality of service, fixed for this pipeline: reliable
/// delivery waits at most this long, in milliseconds, on a given
/// retransmission attempt before giving up on it.
pub const RELIABLE_MAX_BLOCKING_MS: u64 = 100;

/// The preview loop's state: no frame rendered yet (surface hidden and
/// unsized), or surface sized and visible.
#[derive(Debug, Clone, Copy, PartialEq, Eq, Structural)]
pub enum PreviewState {
    Uninitialized,
    Active,
}

/// One item handed to the loop by the subscription: a received message, or
/// a per-item transport delivery failure.
pub enum PreviewInput<T> {
    Message(T),
    TransportFailure,
}

/// One call the loop asks the external renderer to perform, in order.
#[derive(Debug, Clone)]
pub enum RenderAction {
    /// Resize the surface to the given geometry.
    Resize { width: u64, height: u64 },
    /// Make the surface visible.
    Show,
    /// Replace the displayed bitmap.
    SetImage(NormalizedBitmap),
}

/// Mathematical model of a render call.
#[verifier::ext_equal]
pub enum ActionModel {
    Resize { width: int, height: int },
    Show,
    SetImage(BitmapModel),
}

impl View for RenderAction {
    type V = ActionModel;

    open spec fn view(&self) -> ActionModel {
        match self {
            RenderAction::Resize { width, height } => ActionModel::Resize {
                width: *width as int,
                height: *height as int,
            },
            RenderAction::Show => ActionModel::Show,
            RenderAction::SetImage(b) => ActionModel::SetImage(b@),
        }
    }
}

/// The models of a sequence of render calls.
pub open spec fn actions_model(acts: Seq<RenderAction>) -> Seq<ActionModel> {
    acts.map_values(|a: RenderAction| a@)
}

/// Every bitmap handed to the renderer is well formed.
pub open spec fn set_images_wf(acts: Seq<RenderAction>) -> bool {
    forall|i: int|
        0 <= i < acts.len() ==> ((#[trigger] acts[i]) matches RenderAction::SetImage(b)
            ==> b.wf())
}

/// What an input decodes to, if anything: a transport failure and a failed
/// decode both yield nothing to render.
pub open spec fn input_decoded<T: PreviewImage>(input: PreviewInput<T>) -> Option<BitmapModel> {
    match input {
        PreviewInput::Message(m) => match m.decoded_spec() {
            Ok(b) => Some(b),
            Err(_) => None,
        },
        PreviewInput::TransportFailure => None,
    }
}

/// The proportional surface height for a frame: the fixed target width
/// scaled by the frame's aspect ratio.
pub open spec fn resize_height(b: BitmapModel) -> int
    recommends
        b.width > 0,
{
    b.height as int * TARGET_WIDTH as int / b.width as int
}

/// The loop's next state: the first successfully decoded frame (of nonzero
/// width) activates the surface, and every other item leaves the state as it
/// was.
pub open spec fn step_state_spec(state: PreviewState, d: Option<BitmapModel>) -> PreviewState {
    match d {
        Some(b) => if b.width > 0 {
            PreviewState::Active
        } else {
            state
        },
        None => state,
    }
}

/// The render calls one item produces: none for a failed item; resize, show,
/// then set-image for the first decoded frame; set-image alone afterwards.
///
/// A decoded frame of width zero is skipped like a failed item, in every
/// state. This is a deliberate deviation from pushing every decoded frame:
/// the proportional surface height is undefined at width zero (a division by
/// zero, which would otherwise abort the session for one degenerate frame),
/// and such a frame carries no pixels to show.
pub open spec fn step_actions_spec(state: PreviewState, d: Option<BitmapModel>) -> Seq<
    ActionModel,
> {
    match d {
        Some(b) => if b.width == 0 {
            Seq::empty()
        } else if state is Uninitialized {
            seq![
                ActionModel::Resize { width: TARGET_WIDTH as int, height: resize_height(b) },
                ActionModel::Show,
                ActionModel::SetImage(b),
            ]
        } else {
            seq![ActionModel::SetImage(b)]
        },
        None => Seq::empty(),
    }
}

/// Target geometry for the display surface: the fixed width and a
/// proportional height preserving the frame's aspect ratio.
pub fn window_geometry(width: u32, height: u32) -> (r: (u64, u64))
    requires
        width > 0,
    ensures
        r.0 == TARGET_WIDTH,
        r.1 == height as int * TARGET_WIDTH as int / width as int,
{
    (TARGET_WIDTH, height as u64 * TARGET_WIDTH / width as u64)
}

/// Process one received item: decode it, perform the one-time surface
/// initialization on the first decoded frame, and hand the bitmap on. A
/// transport failure or a decode failure changes nothing and emits no render
/// call, so a malformed item never ends the session. A decoded frame of
/// width zero is likewise skipped (see [`step_actions_spec`]): its surface
/// height is undefined and it has no pixels to show.
pub fn preview_step<T: PreviewImage>(state: PreviewState, input: PreviewInput<T>) -> (r: (
    PreviewState,
    Vec<RenderAction>,
))
    ensures
        r.0 == step_state_spec(state, input_decoded(input)),
        actions_model(r.1@) == step_actions_spec(state, input_decoded(input)),
        set_images_wf(r.1@),
{
    let ghost d = input_decoded(input);
    match input {
        PreviewInput::TransportFailure => {
            let empty: Vec<RenderAction> = Vec::new();
            proof {
                assert(actions_model(empty@) =~= step_actions_spec(state, d));
            }
            (state, empty)
        },
        PreviewInput::Message(m) => {
            match m.to_image() {
                Err(_) => {
                    let empty: Vec<RenderAction> = Vec::new();
                    proof {
                        assert(actions_model(empty@) =~= step_actions_spec(state, d));
                    }
                    (state, empty)
                },
                Ok(b) => {
                    if b.width == 0 {
                        let empty: Vec<RenderAction> = Vec::new();
                        proof {
                            assert(actions_model(empty@) =~= step_actions_spec(state, d));
                        }
                        (state, empty)
                    } else {
                        let mut actions: Vec<RenderAction> = Vec::new();
                        if state == PreviewState::Uninitialized {
                            let (gw, gh) = window_geometry(b.width, b.height);
                            actions.push(RenderAction::Resize { width: gw, height: gh });
                            actions.push(RenderAction::Show);
                        }
                        actions.push(RenderAction::SetImage(b));
                        proof {
                            assert(actions_model(actions@) =~= step_actions_spec(state, d));
                        }
                        (PreviewState::Active, actions)
                    }
                },
            }
        },
    }
}

/// A transport delivery failure or a failed decode is skipped: the loop's
/// state is unchanged and the renderer is not called, so one malformed item
/// never takes down the live session.
pub proof fn lemma_failed_item_skipped(state: PreviewState)
    ensures
        step_state_spec(state, None) == state,
        step_actions_spec(state, None) == Seq::<ActionModel>::empty(),
{
}

/// Number of resize calls in a sequence of render calls.
pub open spec fn count_resizes(s: Seq<ActionModel>) -> nat
    decreases s.len(),
{
    if s.len() == 0 {
        0
    } else {
        count_resizes(s.drop_last()) + (if s.last() is Resize {
            1nat
        } else {
            0nat
        })
    }
}

/// Number of visibility (show) calls in a sequence of render calls.
pub open spec fn count_shows(s: Seq<ActionModel>) -> nat
    decreases s.len(),
{
    if s.len() == 0 {
        0
    } else {
        count_shows(s.drop_last()) + (if s.last() is Show {
            1nat
        } else {
            0nat
        })
    }
}

/// Number of set-image calls in a sequence of render calls.
pub open spec fn count_set_images(s: Seq<ActionModel>) -> nat
    decreases s.len(),
{
    if s.len() == 0 {
        0
    } else {
        count_set_images(s.drop_last()) + (if s.last() is SetImage {
            1nat
        } else {
            0nat
        })
    }
}

/// The first successfully decoded frame, arriving in the uninitialized
/// state, triggers exactly one surface resize — to the fixed target width
/// and the aspect-preserving height — and exactly one visibility change,
/// and activates the state. A later decoded frame, of any dimensions,
/// triggers no further resize and no further visibility change: only a
/// single set-image call.
pub proof fn lemma_first_frame_initializes_once(d0: BitmapModel, d1: BitmapModel)
    requires
        d0.width > 0,
        d1.width > 0,
    ensures
        step_state_spec(PreviewState::Uninitialized, Some(d0)) == PreviewState::Active,
        count_resizes(step_actions_spec(PreviewState::Uninitialized, Some(d0))) == 1,
        count_shows(step_actions_spec(PreviewState::Uninitialized, Some(d0))) == 1,
        count_set_images(step_actions_spec(PreviewState::Uninitialized, Some(d0))) == 1,
        step_actions_spec(PreviewState::Uninitialized, Some(d0))[0] == (ActionModel::Resize {
            width: TARGET_WIDTH as int,
            height: resize_height(d0),
        }),
        count_resizes(step_actions_spec(PreviewState::Active, Some(d1))) == 0,
        count_shows(step_actions_spec(PreviewState::Active, Some(d1))) == 0,
        count_set_images(step_actions_spec(PreviewState::Active, Some(d1))) == 1,
{
    let rz = ActionModel::Resize { width: TARGET_WIDTH as int, height: resize_height(d0) };
    let e = Seq::<ActionModel>::empty();
    let s1 = seq![rz];
    let s2 = seq![rz, ActionModel::Show];
    let s3 = seq![rz, ActionModel::Show, ActionModel::SetImage(d0)];
    let a0 = step_actions_spec(PreviewState::Uninitialized, Some(d0));
    assert(a0 =~= s3);
    assert(s3.drop_last() =~= s2);
    assert(s2.drop_last() =~= s1);
    assert(s1.drop_last() =~= e);
    assert(count_resizes(e) == 0 && count_shows(e) == 0 && count_set_images(e) == 0);
    assert(count_resizes(s1) == 1 && count_shows(s1) == 0 && count_set_images(s1) == 0);
    assert(count_resizes(s2) == 1 && count_shows(s2) == 1 && count_set_images(s2) == 0);
    assert(count_resizes(s3) == 1 && count_shows(s3) == 1 && count_set_images(s3) == 1);
    let t1 = seq![ActionModel::SetImage(d1)];
    let a1 = step_actions_spec(PreviewState::Active, Some(d1));
    assert(a1 =~= t1);
    assert(t1.drop_last() =~= e);
    assert(count_resizes(t1) == 0 && count_shows(t1) == 0 && count_set_images(t1) == 1);
}

} // verus!
