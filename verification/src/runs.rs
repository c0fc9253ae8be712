//! What a frame does over a whole run of calls: it draws every eye, each with
//! its own render info and buffers, before it starts presenting, and it
//! presents every eye's color buffer before it releases the render info.
use vstd::prelude::*;
use crate::laws::present_step_keeps_consistency;
use crate::present::{
    present_accepts, present_next, PresentAction, PresentEvent, PresentPhase, PresentationView,
};

verus! {

/// The frame and the calls it named after it took `events` in turn,
/// starting from `s`.
pub open spec fn present_run(s: PresentationView, events: Seq<PresentEvent>) -> (
    PresentationView,
    Seq<PresentAction>,
)
    decreases events.len(),
{
    if events.len() == 0 {
        (s, Seq::empty())
    } else {
        let (t, a) = present_next(s, events[0]);
        let (u, actions) = present_run(t, events.drop_first());
        (u, seq![a] + actions)
    }
}

/// Each of `events`, in turn, answers the call that the frame waits on.
pub open spec fn present_run_accepted(s: PresentationView, events: Seq<PresentEvent>) -> bool
    decreases events.len(),
{
    events.len() == 0 || (present_accepts(s.phase, events[0]) && present_run_accepted(
        present_next(s, events[0]).0,
        events.drop_first(),
    ))
}

/// The phases from which a frame has nothing more to draw.
pub open spec fn drawing_over(phase: PresentPhase) -> bool {
    match phase {
        PresentPhase::StartingPresent => true,
        PresentPhase::FetchingPresentInfo => true,
        PresentPhase::Presenting => true,
        PresentPhase::Releasing => true,
        PresentPhase::Finishing => true,
        PresentPhase::Done => true,
        PresentPhase::Failed { .. } => true,
        _ => false,
    }
}

/// From a phase after the drawing, a run never comes back to
/// `StartingPresent` once it has taken a call's result.
proof fn run_after_drawing(s: PresentationView, events: Seq<PresentEvent>)
    requires
        drawing_over(s.phase),
        present_run_accepted(s, events),
    ensures
        drawing_over(present_run(s, events).0.phase),
        events.len() > 0 ==> present_run(s, events).0.phase != PresentPhase::StartingPresent,
    decreases events.len(),
{
    if events.len() > 0 {
        let t = present_next(s, events[0]).0;
        run_after_drawing(t, events.drop_first());
    }
}

/// From releasing the render info on, a run never comes back to
/// `Releasing` once it has taken a call's result.
proof fn run_after_releasing(s: PresentationView, events: Seq<PresentEvent>)
    requires
        s.phase == PresentPhase::Releasing || s.phase == PresentPhase::Finishing || s.phase
            == PresentPhase::Done || s.phase is Failed,
        present_run_accepted(s, events),
    ensures
        events.len() > 0 ==> present_run(s, events).0.phase != PresentPhase::Releasing,
        s.phase != PresentPhase::Releasing ==> present_run(s, events).0.phase
            != PresentPhase::Releasing,
    decreases events.len(),
{
    if events.len() > 0 {
        let t = present_next(s, events[0]).0;
        run_after_releasing(t, events.drop_first());
    }
}

/// `x` in the rest of the calls is among all of them.
proof fn contains_in_tail(a: PresentAction, rest: Seq<PresentAction>, x: PresentAction)
    requires
        rest.contains(x),
    ensures
        (seq![a] + rest).contains(x),
{
    let k = choose|k: int| 0 <= k < rest.len() && rest[k] == x;
    assert((seq![a] + rest)[k + 1] == x);
}

/// While presenting, a run that reaches `Releasing` presents the color
/// buffer of every eye from the current one on.
proof fn presenting_reaches_every_eye(s: PresentationView, events: Seq<PresentEvent>)
    requires
        s.consistent(),
        s.phase == PresentPhase::FetchingPresentInfo || s.phase == PresentPhase::Presenting,
        present_run_accepted(s, events),
        present_run(s, events).0.phase == PresentPhase::Releasing,
    ensures
        forall|i: int|
            (if s.phase == PresentPhase::FetchingPresentInfo {
                s.eye as int
            } else {
                (s.eye + 1) as int
            }) <= i < s.count ==> present_run(s, events).1.contains(
                PresentAction::PresentEye {
                    eye: i as usize,
                    buffer: s.manager.color_buffers[i],
                },
            ),
    decreases events.len(),
{
    if events.len() > 0 {
        let (t, a) = present_next(s, events[0]);
        let rest = events.drop_first();
        let acts = present_run(t, rest).1;
        assert(present_run(s, events).1 == seq![a] + acts);
        present_step_keeps_consistency(s, events[0]);
        if s.phase == PresentPhase::FetchingPresentInfo {
            presenting_reaches_every_eye(t, rest);
            assert forall|i: int| s.eye <= i < s.count implies (seq![a] + acts).contains(
                PresentAction::PresentEye { eye: i as usize, buffer: s.manager.color_buffers[i] },
            ) by {
                if i == s.eye {
                    assert((seq![a] + acts)[0] == a);
                } else {
                    contains_in_tail(
                        a,
                        acts,
                        PresentAction::PresentEye {
                            eye: i as usize,
                            buffer: s.manager.color_buffers[i],
                        },
                    );
                }
            }
        } else {
            if t.phase is Failed {
                run_after_releasing(t, rest);
            } else if t.phase == PresentPhase::FetchingPresentInfo {
                presenting_reaches_every_eye(t, rest);
                assert forall|i: int| s.eye + 1 <= i < s.count implies (seq![a] + acts).contains(
                    PresentAction::PresentEye {
                        eye: i as usize,
                        buffer: s.manager.color_buffers[i],
                    },
                ) by {
                    contains_in_tail(
                        a,
                        acts,
                        PresentAction::PresentEye {
                            eye: i as usize,
                            buffer: s.manager.color_buffers[i],
                        },
                    );
                }
            } else {
                run_after_releasing(t, rest);
            }
        }
    }
}

/// A frame that has started presenting and goes on until it releases the
/// render info has presented the color buffer of every eye, eye `i` with the
/// manager's `i`-th color buffer.
pub proof fn frame_presents_every_eye(s: PresentationView, events: Seq<PresentEvent>)
    requires
        s.consistent(),
        s.phase == PresentPhase::StartingPresent,
        present_run_accepted(s, events),
        present_run(s, events).0.phase == PresentPhase::Releasing,
    ensures
        forall|i: int|
            0 <= i < s.count ==> present_run(s, events).1.contains(
                PresentAction::PresentEye {
                    eye: i as usize,
                    buffer: s.manager.color_buffers[i],
                },
            ),
{
    if events.len() > 0 {
        let (t, a) = present_next(s, events[0]);
        let rest = events.drop_first();
        let acts = present_run(t, rest).1;
        assert(present_run(s, events).1 == seq![a] + acts);
        present_step_keeps_consistency(s, events[0]);
        if t.phase == PresentPhase::FetchingPresentInfo {
            presenting_reaches_every_eye(t, rest);
            assert forall|i: int| 0 <= i < s.count implies (seq![a] + acts).contains(
                PresentAction::PresentEye { eye: i as usize, buffer: s.manager.color_buffers[i] },
            ) by {
                contains_in_tail(
                    a,
                    acts,
                    PresentAction::PresentEye {
                        eye: i as usize,
                        buffer: s.manager.color_buffers[i],
                    },
                );
            }
        } else {
            run_after_releasing(t, rest);
        }
    }
}

/// Eye `i` is drawn right after its own render info is fetched, into its own
/// buffers.
pub open spec fn drawn_with_own_info(
    m: crate::manager::RenderManagerView,
    actions: Seq<PresentAction>,
    i: int,
) -> bool {
    exists|j: int|
        0 <= j && j + 1 < actions.len() && #[trigger] actions[j] == (PresentAction::FetchEyeInfo {
            eye: i as usize,
        }) && actions[j + 1] == (PresentAction::DrawEye {
            eye: i as usize,
            frame_buffer: m.frame_buffer,
            color_buffer: m.color_buffers[i].color_buffer_name,
            depth_buffer: m.depth_buffers[i],
        })
}

/// The calls `actions` with `a` before them still draw eye `i` right after
/// fetching its render info.
proof fn drawn_in_tail(
    m: crate::manager::RenderManagerView,
    a: PresentAction,
    actions: Seq<PresentAction>,
    i: int,
)
    requires
        drawn_with_own_info(m, actions, i),
    ensures
        drawn_with_own_info(m, seq![a] + actions, i),
{
    let j = choose|j: int|
        0 <= j && j + 1 < actions.len() && #[trigger] actions[j] == (PresentAction::FetchEyeInfo {
            eye: i as usize,
        }) && actions[j + 1] == (PresentAction::DrawEye {
            eye: i as usize,
            frame_buffer: m.frame_buffer,
            color_buffer: m.color_buffers[i].color_buffer_name,
            depth_buffer: m.depth_buffers[i],
        });
    assert((seq![a] + actions)[j + 1] == actions[j]);
    assert((seq![a] + actions)[j + 2] == actions[j + 1]);
}

/// While drawing, a run that reaches `StartingPresent` draws every eye from
/// the current one on, each right after its render info; waiting on the
/// current eye's render info, its first call draws the current eye.
proof fn drawing_reaches_every_eye(s: PresentationView, events: Seq<PresentEvent>)
    requires
        s.consistent(),
        s.phase == PresentPhase::FetchingDrawInfo || s.phase == PresentPhase::Drawing,
        present_run_accepted(s, events),
        present_run(s, events).0.phase == PresentPhase::StartingPresent,
    ensures
        s.phase == PresentPhase::FetchingDrawInfo ==> {
            &&& present_run(s, events).1.len() > 0
            &&& present_run(s, events).1[0] == (PresentAction::DrawEye {
                eye: s.eye as usize,
                frame_buffer: s.manager.frame_buffer,
                color_buffer: s.manager.color_buffers[s.eye as int].color_buffer_name,
                depth_buffer: s.manager.depth_buffers[s.eye as int],
            })
        },
        forall|i: int|
            s.eye + 1 <= i < s.count ==> drawn_with_own_info(
                s.manager,
                present_run(s, events).1,
                i,
            ),
    decreases events.len(),
{
    if events.len() > 0 {
        let (t, a) = present_next(s, events[0]);
        let rest = events.drop_first();
        let acts = present_run(t, rest).1;
        assert(present_run(s, events).1 == seq![a] + acts);
        present_step_keeps_consistency(s, events[0]);
        if s.phase == PresentPhase::FetchingDrawInfo {
            if t.phase is Failed {
                run_after_drawing(t, rest);
            } else {
                drawing_reaches_every_eye(t, rest);
                assert forall|i: int| s.eye + 1 <= i < s.count implies drawn_with_own_info(
                    s.manager,
                    seq![a] + acts,
                    i,
                ) by {
                    drawn_in_tail(s.manager, a, acts, i);
                }
            }
        } else {
            if t.phase == PresentPhase::FetchingDrawInfo {
                drawing_reaches_every_eye(t, rest);
                assert forall|i: int| s.eye + 1 <= i < s.count implies drawn_with_own_info(
                    s.manager,
                    seq![a] + acts,
                    i,
                ) by {
                    if i == s.eye + 1 {
                        assert((seq![a] + acts)[0] == a);
                        assert((seq![a] + acts)[1] == acts[0]);
                    } else {
                        drawn_in_tail(s.manager, a, acts, i);
                    }
                }
            } else {
                run_after_drawing(t, rest);
            }
        }
    } else {
        assert(false);
    }
}

/// A frame that counted `count` render infos and goes on until it starts
/// presenting has drawn every eye `i < count`, each right after fetching that
/// same eye's render info, into the manager's framebuffer and the eye's own
/// color and depth buffers.
pub proof fn frame_draws_every_eye(s: PresentationView, events: Seq<PresentEvent>)
    requires
        s.consistent(),
        s.phase == PresentPhase::Counting,
        present_run_accepted(s, events),
        present_run(s, events).0.phase == PresentPhase::StartingPresent,
    ensures
        events.len() > 0,
        events[0] is Counted,
        forall|i: int|
            0 <= i < events[0]->count ==> drawn_with_own_info(
                s.manager,
                present_run(s, events).1,
                i,
            ),
{
    if events.len() == 0 {
        assert(false);
    }
    let (t, a) = present_next(s, events[0]);
    let rest = events.drop_first();
    let acts = present_run(t, rest).1;
    assert(present_run(s, events).1 == seq![a] + acts);
    present_step_keeps_consistency(s, events[0]);
    if t.phase == PresentPhase::FetchingDrawInfo {
        drawing_reaches_every_eye(t, rest);
        assert forall|i: int| 0 <= i < events[0]->count implies drawn_with_own_info(
            s.manager,
            seq![a] + acts,
            i,
        ) by {
            if i == 0 {
                assert((seq![a] + acts)[0] == a);
                assert((seq![a] + acts)[1] == acts[0]);
            } else {
                drawn_in_tail(s.manager, a, acts, i);
            }
        }
    }
}

} // verus!
