//! Draw commands and the transform-stack interpreter.
//!
//! Script execution produces an ordered queue of primitive draw commands.
//! Once per frame the queue is drained in emission order by
//! [`render_commands`], which keeps a stack of cumulative transforms and a
//! current fill color and turns each command into concrete render calls for
//! the graphics backend.  The stack always holds at least one transform: the
//! bottom element is the identity and is never popped.

use vstd::prelude::*;

use crate::color::Color;
use crate::color::black;
use crate::color::white;
use crate::fx::FX_ONE;
use crate::fx::Fx;
use crate::geom::Mat;
use crate::geom::Rect;
use crate::geom::mat_identity;
use crate::geom::mat_mul;

verus! {

/// One primitive drawing instruction, queued by script execution and
/// consumed within the same frame.
#[derive(Clone, Copy, Debug, PartialEq, Eq, Structural)]
pub enum DrawCommand {
    /// Fill a rectangle with the current fill color under the current
    /// cumulative transform.
    Rect(Rect),
    /// Make this the current fill color.
    Fill(Color),
    /// Right-multiply the top of the transform stack by this matrix.
    Transform(Mat),
    /// Remove the top transform frame, unless only the bottom frame is left.
    PopTransform,
    /// Duplicate the current top transform onto a new frame.
    PushTransform,
}

/// One concrete call to the graphics backend, in the exact order the drained
/// commands dictate.
#[derive(Clone, Copy, Debug, PartialEq, Eq, Structural)]
pub enum RenderCall {
    /// Clear the whole target to this color.
    Clear(Color),
    /// Fill this rectangle with this color under this cumulative transform.
    FillRect(Rect, Color, Mat),
    /// Make this the backend's active transform.
    SetTransform(Mat),
}

/// The interpreter state while draining one frame's queue: the transform
/// stack, the current fill color, and the render calls issued so far.
#[verifier::ext_equal]
pub struct RenderState {
    pub stack: Seq<Mat>,
    pub color: Color,
    pub out: Seq<RenderCall>,
}

/// The stack after a pop: the top frame is removed unless only the bottom
/// frame is left, in which case popping is a silent no-op.
pub open spec fn popped(stack: Seq<Mat>) -> Seq<Mat> {
    if stack.len() >= 2 {
        stack.drop_last()
    } else {
        stack
    }
}

/// The effect of one draw command on the interpreter state.
pub open spec fn render_step(st: RenderState, cmd: DrawCommand) -> RenderState
    recommends
        st.stack.len() >= 1,
{
    match cmd {
        DrawCommand::Rect(r) => RenderState {
            out: st.out.push(RenderCall::FillRect(r, st.color, st.stack.last())),
            ..st
        },
        DrawCommand::Fill(c) => RenderState { color: c, ..st },
        DrawCommand::Transform(t) => {
            let m = mat_mul(st.stack.last(), t);
            RenderState {
                stack: st.stack.update(st.stack.len() - 1, m),
                out: st.out.push(RenderCall::SetTransform(m)),
                ..st
            }
        },
        DrawCommand::PushTransform => RenderState {
            stack: st.stack.push(st.stack.last()),
            out: st.out.push(RenderCall::SetTransform(st.stack.last())),
            ..st
        },
        DrawCommand::PopTransform => RenderState {
            stack: popped(st.stack),
            out: st.out.push(RenderCall::SetTransform(popped(st.stack).last())),
            ..st
        },
    }
}

/// The interpreter state after draining `cmds`, starting from `st`.
pub open spec fn render_fold(st: RenderState, cmds: Seq<DrawCommand>) -> RenderState
    decreases cmds.len(),
{
    if cmds.len() == 0 {
        st
    } else {
        render_fold(render_step(st, cmds[0]), cmds.drop_first())
    }
}

/// The state a frame's drain pass starts from: the background cleared to
/// black, the fill color reset to opaque white, and the transform stack
/// reset to a single identity frame.
pub open spec fn init_render_state() -> RenderState {
    RenderState { stack: seq![mat_identity()], color: white(), out: seq![RenderCall::Clear(black())] }
}

/// The full sequence of render calls one frame's queue produces.
pub open spec fn render_calls(cmds: Seq<DrawCommand>) -> Seq<RenderCall> {
    render_fold(init_render_state(), cmds).out
}

/// The transform stack never underflows: starting from any state with at
/// least one frame, any sequence of draw commands leaves at least one frame,
/// because popping the bottom frame is a no-op.
pub proof fn lemma_stack_never_empty(st: RenderState, cmds: Seq<DrawCommand>)
    requires
        st.stack.len() >= 1,
    ensures
        render_fold(st, cmds).stack.len() >= 1,
    decreases cmds.len(),
{
    if cmds.len() > 0 {
        lemma_stack_never_empty(render_step(st, cmds[0]), cmds.drop_first());
    }
}

/// Draining a concatenation drains the first part and then the second.
pub proof fn lemma_render_fold_append(st: RenderState, a: Seq<DrawCommand>, b: Seq<DrawCommand>)
    ensures
        render_fold(st, a + b) == render_fold(render_fold(st, a), b),
    decreases a.len(),
{
    if a.len() == 0 {
        assert(a + b =~= b);
    } else {
        assert((a + b)[0] == a[0]);
        assert((a + b).drop_first() =~= a.drop_first() + b);
        lemma_render_fold_append(render_step(st, a[0]), a.drop_first(), b);
    }
}

/// Whether a command leaves every transform frame but the top one alone:
/// everything except pushing and popping frames.
pub open spec fn top_frame_only(cmd: DrawCommand) -> bool {
    match cmd {
        DrawCommand::Rect(_) => true,
        DrawCommand::Fill(_) => true,
        DrawCommand::Transform(_) => true,
        DrawCommand::PopTransform => false,
        DrawCommand::PushTransform => false,
    }
}

/// Commands that only touch the top frame leave the frames below it, and
/// their number, exactly as they were.
proof fn lemma_top_frame_only_keeps_below(st: RenderState, cmds: Seq<DrawCommand>)
    requires
        st.stack.len() >= 1,
        forall|j: int| 0 <= j < cmds.len() ==> top_frame_only(#[trigger] cmds[j]),
    ensures
        render_fold(st, cmds).stack.len() == st.stack.len(),
        render_fold(st, cmds).stack.drop_last() == st.stack.drop_last(),
    decreases cmds.len(),
{
    if cmds.len() > 0 {
        let st1 = render_step(st, cmds[0]);
        assert(st1.stack.drop_last() =~= st.stack.drop_last());
        lemma_top_frame_only_keeps_below(st1, cmds.drop_first());
    }
}

/// A transform applied inside a pushed frame does not leak past the
/// matching pop: around any commands that only touch the top frame, a
/// push-pop pair returns the transform stack — its top included — to
/// exactly what it was, so whatever is drawn afterwards is placed under the
/// untouched prior transform.
pub proof fn lemma_pop_restores_stack(st: RenderState, mids: Seq<DrawCommand>)
    requires
        st.stack.len() >= 1,
        forall|j: int| 0 <= j < mids.len() ==> top_frame_only(#[trigger] mids[j]),
    ensures
        render_fold(
            st,
            seq![DrawCommand::PushTransform] + mids + seq![DrawCommand::PopTransform],
        ).stack == st.stack,
{
    let push = seq![DrawCommand::PushTransform];
    let pop = seq![DrawCommand::PopTransform];
    let st1 = render_step(st, DrawCommand::PushTransform);
    assert(push[0] == DrawCommand::PushTransform);
    assert(push.drop_first() =~= Seq::<DrawCommand>::empty());
    assert(render_fold(st1, Seq::<DrawCommand>::empty()) == st1);
    assert(render_fold(st, push) == st1);
    lemma_render_fold_append(st, push, mids);
    let st2 = render_fold(st1, mids);
    lemma_top_frame_only_keeps_below(st1, mids);
    lemma_render_fold_append(st, push + mids, pop);
    assert(render_fold(st, push + mids) == st2);
    let st3 = render_fold(st2, pop);
    assert(pop[0] == DrawCommand::PopTransform);
    assert(pop.drop_first() =~= Seq::<DrawCommand>::empty());
    assert(render_fold(render_step(st2, DrawCommand::PopTransform), Seq::<DrawCommand>::empty())
        == render_step(st2, DrawCommand::PopTransform));
    assert(st3 == render_step(st2, DrawCommand::PopTransform));
    assert(st2.stack.len() >= 2);
    assert(st3.stack =~= st.stack);
    assert((push + mids) + pop =~= seq![DrawCommand::PushTransform] + mids + seq![
        DrawCommand::PopTransform,
    ]);
}

/// An executable stack of cumulative transforms.  It always holds at least
/// one frame; the bottom frame can never be popped.
pub struct TransformStack {
    mats: Vec<Mat>,
}

impl View for TransformStack {
    type V = Seq<Mat>;

    closed spec fn view(&self) -> Seq<Mat> {
        self.mats@
    }
}

impl TransformStack {
    /// The stack holds at least one frame.
    pub open spec fn wf(self) -> bool {
        self@.len() >= 1
    }

    /// A fresh stack: a single identity frame.
    pub fn new() -> (s: TransformStack)
        ensures
            s@ == seq![mat_identity()],
            s.wf(),
    {
        let mut mats: Vec<Mat> = Vec::new();
        mats.push(Mat::identity());
        let s = TransformStack { mats };
        proof {
            assert(s@ =~= seq![mat_identity()]);
        }
        s
    }

    /// The current cumulative transform: the top frame.
    pub fn top(&self) -> (m: Mat)
        requires
            self.wf(),
        ensures
            m == self@.last(),
    {
        self.mats[self.mats.len() - 1]
    }

    /// Right-multiplies the top frame by `t` and returns the new top.
    pub fn apply(&mut self, t: Mat) -> (m: Mat)
        requires
            old(self).wf(),
        ensures
            m == mat_mul(old(self)@.last(), t),
            final(self)@ == old(self)@.update(old(self)@.len() - 1, m),
            final(self).wf(),
    {
        let i = self.mats.len() - 1;
        let m = self.mats[i].mul(t);
        self.mats.set(i, m);
        m
    }

    /// Duplicates the top frame and returns it.
    pub fn push_frame(&mut self) -> (m: Mat)
        requires
            old(self).wf(),
        ensures
            m == old(self)@.last(),
            final(self)@ == old(self)@.push(m),
            final(self).wf(),
    {
        let m = self.top();
        self.mats.push(m);
        m
    }

    /// Removes the top frame, unless only the bottom frame is left, in which
    /// case nothing changes; returns the top after the pop.
    pub fn pop_frame(&mut self) -> (m: Mat)
        requires
            old(self).wf(),
        ensures
            final(self)@ == popped(old(self)@),
            m == final(self)@.last(),
            final(self).wf(),
    {
        if self.mats.len() >= 2 {
            let _ = self.mats.pop();
        }
        self.top()
    }
}

/// Drains one frame's draw commands, in emission order, into the concrete
/// render calls for the backend.  A rectangle is rendered with the fill
/// color and the cumulative transform in effect at the moment it is
/// reached; later commands never retroactively change earlier calls.
pub fn render_commands(cmds: &Vec<DrawCommand>) -> (out: Vec<RenderCall>)
    ensures
        out@ == render_calls(cmds@),
{
    let mut stack = TransformStack::new();
    let mut color = Color {
        r: Fx { bits: FX_ONE },
        g: Fx { bits: FX_ONE },
        b: Fx { bits: FX_ONE },
        a: Fx { bits: FX_ONE },
    };
    let mut out: Vec<RenderCall> = Vec::new();
    out.push(RenderCall::Clear(Color {
        r: Fx { bits: 0 },
        g: Fx { bits: 0 },
        b: Fx { bits: 0 },
        a: Fx { bits: FX_ONE },
    }));
    proof {
        assert((RenderState { stack: stack@, color, out: out@ }) =~= init_render_state());
        assert(cmds@.skip(0) =~= cmds@);
    }
    let n = cmds.len();
    let mut i: usize = 0;
    while i < n
        invariant
            i <= n,
            n == cmds@.len(),
            stack.wf(),
            render_fold(init_render_state(), cmds@) == render_fold(
                (RenderState { stack: stack@, color, out: out@ }),
                cmds@.skip(i as int),
            ),
        decreases n - i,
    {
        let ghost pre = RenderState { stack: stack@, color, out: out@ };
        proof {
            assert(cmds@.skip(i as int)[0] == cmds@[i as int]);
            assert(cmds@.skip(i as int).drop_first() =~= cmds@.skip(i as int + 1));
        }
        match cmds[i] {
            DrawCommand::Rect(r) => {
                out.push(RenderCall::FillRect(r, color, stack.top()));
            },
            DrawCommand::Fill(c) => {
                color = c;
            },
            DrawCommand::Transform(t) => {
                let m = stack.apply(t);
                out.push(RenderCall::SetTransform(m));
            },
            DrawCommand::PushTransform => {
                let m = stack.push_frame();
                out.push(RenderCall::SetTransform(m));
            },
            DrawCommand::PopTransform => {
                let m = stack.pop_frame();
                out.push(RenderCall::SetTransform(m));
            },
        }
        proof {
            assert((RenderState { stack: stack@, color, out: out@ }) == render_step(
                pre,
                cmds@[i as int],
            ));
        }
        i = i + 1;
    }
    proof {
        assert(cmds@.skip(n as int).len() == 0);
    }
    out
}

} // verus!
