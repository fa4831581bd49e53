//! The script engine and its host function surface.
//!
//! [`Lang`] owns the currently active compiled program, the variable
//! environment, and the queue of draw commands the running script produces.
//! The compiled program itself is opaque: an external interpreter compiles
//! source text and executes the active program once per frame, and each host
//! function the script calls during that run arrives here as one
//! [`HostCall`].  Everything the engine decides — when a candidate program
//! replaces the active one, what each host call appends to the queue, which
//! calls fail and with which error — is pinned down by the contracts in this
//! module.

use vstd::prelude::*;
use vstd::string::StringExecFns;

use crate::color::Color;
use crate::color::color_by_name;
use crate::color::color_of_name;
use crate::draw::DrawCommand;
use crate::environment::Environment;
use crate::environment::lookup;
use crate::fx::FX_HALF;
use crate::fx::FX_PI;
use crate::fx::Fx;
use crate::fx::abs_bits;
use crate::fx::div_bits;
use crate::fx::fxv;
use crate::fx::mul_bits;
use crate::fx::sat_add_bits;
use crate::fx::sat_neg_bits;
use crate::fx::sin_of;
use crate::geom::Mat;
use crate::geom::Rect;
use crate::geom::mat_rotation;
use crate::geom::mat_scaling;
use crate::geom::mat_translation;

verus! {

/// The ordered queue of draw commands produced during script execution and
/// fully drained once per frame: a single-producer, single-consumer channel
/// whose producer is the host function surface and whose consumer is the
/// per-frame render pass.
pub struct DrawQueue {
    items: Vec<DrawCommand>,
}

impl View for DrawQueue {
    type V = Seq<DrawCommand>;

    closed spec fn view(&self) -> Seq<DrawCommand> {
        self.items@
    }
}

impl DrawQueue {
    /// A fresh, empty queue.
    pub fn new() -> (q: DrawQueue)
        ensures
            q@ == Seq::<DrawCommand>::empty(),
    {
        let q = DrawQueue { items: Vec::new() };
        proof {
            assert(q@ =~= Seq::<DrawCommand>::empty());
        }
        q
    }

    /// Appends one command at the back of the queue.
    pub fn send(&mut self, cmd: DrawCommand)
        ensures
            final(self)@ == old(self)@.push(cmd),
    {
        self.items.push(cmd);
    }

    /// Removes and returns every queued command, in emission order; the
    /// queue is empty afterwards.
    pub fn drain(&mut self) -> (cmds: Vec<DrawCommand>)
        ensures
            cmds@ == old(self)@,
            final(self)@ == Seq::<DrawCommand>::empty(),
    {
        let mut out: Vec<DrawCommand> = Vec::new();
        core::mem::swap(&mut out, &mut self.items);
        proof {
            assert(self@ =~= Seq::<DrawCommand>::empty());
        }
        out
    }
}

/// The argument of a set-fill call: either a color name from the fixed
/// table, or the numeric channel values, of which there must be exactly
/// four.
#[derive(Debug, PartialEq, Eq)]
pub enum FillArg {
    Name(String),
    Channels(Vec<Fx>),
}

/// One invocation of a host function by the running script, with its
/// arguments already coerced to fixed-point scalars.
#[derive(Debug, PartialEq, Eq)]
pub enum HostCall {
    /// emit-rect(x, y, w, h): a rectangle of size `w` by `h` whose corner
    /// lies at `(x, y)`, drawn centered on its own origin.
    EmitRect(Fx, Fx, Fx, Fx),
    /// set-fill(name | r, g, b, a).
    SetFill(FillArg),
    /// translate(x, y).
    Translate(Fx, Fx),
    /// rotate(angle), in degrees.
    Rotate(Fx),
    /// scale(x, y?): uniform scaling by `x` when `y` is omitted.
    Scale(Fx, Option<Fx>),
    /// push-frame().
    PushFrame,
    /// pop-frame().
    PopFrame,
    /// oscillate(period): reads the injected time value and returns the
    /// absolute sine of `time * pi / period`.
    Oscillate(Fx),
}

/// A host function failure, with the datum that caused it.
#[derive(Debug, PartialEq, Eq)]
pub enum HostError {
    /// set-fill was given a name outside the color table.
    UnknownColor(String),
    /// set-fill was given this many numeric channel values instead of four.
    ChannelCount(usize),
    /// oscillate was called before a time value was injected.
    TimeNotSet,
    /// oscillate was given a zero period, for which no phase is defined.
    ZeroPeriod,
}

/// The error taxonomy class a failure belongs to.  Compile errors are not
/// here: they arise in the external interpreter and reach the engine as
/// formatted text.
#[derive(Clone, Copy, Debug, PartialEq, Eq, Structural)]
pub enum ErrorKind {
    /// A name was looked up and not found.
    Lookup,
    /// An argument had the wrong arity or value.
    Value,
    /// Execution failed for any other reason.
    Runtime,
}

impl HostError {
    /// The taxonomy class of this error.
    pub open spec fn kind_spec(&self) -> ErrorKind {
        match self {
            HostError::UnknownColor(_) => ErrorKind::Lookup,
            HostError::ChannelCount(_) => ErrorKind::Value,
            HostError::TimeNotSet => ErrorKind::Runtime,
            HostError::ZeroPeriod => ErrorKind::Value,
        }
    }

    /// The taxonomy class of this error.
    pub fn kind(&self) -> (k: ErrorKind)
        ensures
            k == self.kind_spec(),
    {
        match self {
            HostError::UnknownColor(_) => ErrorKind::Lookup,
            HostError::ChannelCount(_) => ErrorKind::Value,
            HostError::TimeNotSet => ErrorKind::Runtime,
            HostError::ZeroPeriod => ErrorKind::Value,
        }
    }
}

/// The draw commands an emit-rect call queues: the rectangle is drawn
/// centered on its own origin under a temporary translation to its center,
/// so that transforms already in effect act on the whole rectangle.
pub open spec fn emit_rect_cmds(x: Fx, y: Fx, w: Fx, h: Fx) -> Seq<DrawCommand> {
    let cx = fxv(sat_add_bits(x.bits as int, mul_bits(w.bits as int, FX_HALF as int)));
    let cy = fxv(sat_add_bits(y.bits as int, mul_bits(h.bits as int, FX_HALF as int)));
    let ox = fxv(sat_neg_bits(mul_bits(w.bits as int, FX_HALF as int)));
    let oy = fxv(sat_neg_bits(mul_bits(h.bits as int, FX_HALF as int)));
    seq![
        DrawCommand::PushTransform,
        DrawCommand::Transform(mat_translation(cx, cy)),
        DrawCommand::Rect(Rect { x: ox, y: oy, w, h }),
        DrawCommand::PopTransform,
    ]
}

/// The color a four-channel set-fill call selects.
pub open spec fn channels_color(v: Seq<Fx>) -> Color
    recommends
        v.len() == 4,
{
    Color { r: v[0], g: v[1], b: v[2], a: v[3] }
}

/// The oscillator value at time `t` with period `p`: the absolute sine of
/// `t * (pi / p)`, in saturating fixed-point arithmetic.
pub open spec fn osc_value(t: Fx, p: Fx) -> Fx
    recommends
        p.bits != 0,
{
    fxv(abs_bits(sin_of(mul_bits(t.bits as int, div_bits(FX_PI as int, p.bits as int)))))
}

/// The draw commands one host call appends to the queue, given the
/// currently injected time value.  A failing call appends nothing.
pub open spec fn call_effect(call: HostCall, time: Option<Fx>) -> Seq<DrawCommand> {
    match call {
        HostCall::EmitRect(x, y, w, h) => emit_rect_cmds(x, y, w, h),
        HostCall::SetFill(FillArg::Name(s)) => match color_of_name(s@) {
            Some(c) => seq![DrawCommand::Fill(c)],
            None => Seq::empty(),
        },
        HostCall::SetFill(FillArg::Channels(v)) => if v@.len() == 4 {
            seq![DrawCommand::Fill(channels_color(v@))]
        } else {
            Seq::empty()
        },
        HostCall::Translate(x, y) => seq![DrawCommand::Transform(mat_translation(x, y))],
        HostCall::Rotate(a) => seq![DrawCommand::Transform(mat_rotation(a))],
        HostCall::Scale(x, yo) => {
            let y = match yo {
                Some(y) => y,
                None => x,
            };
            seq![DrawCommand::Transform(mat_scaling(x, y))]
        },
        HostCall::PushFrame => seq![DrawCommand::PushTransform],
        HostCall::PopFrame => seq![DrawCommand::PopTransform],
        HostCall::Oscillate(_) => Seq::empty(),
    }
}

/// The value or error one host call returns, given the currently injected
/// time value.
pub open spec fn call_result(call: HostCall, time: Option<Fx>) -> Result<Option<Fx>, HostError> {
    match call {
        HostCall::SetFill(FillArg::Name(s)) => match color_of_name(s@) {
            Some(_) => Ok(None),
            None => Err(HostError::UnknownColor(s)),
        },
        HostCall::SetFill(FillArg::Channels(v)) => if v@.len() == 4 {
            Ok(None)
        } else {
            Err(HostError::ChannelCount(v@.len() as usize))
        },
        HostCall::Oscillate(p) => match time {
            None => Err(HostError::TimeNotSet),
            Some(t) => if p.bits == 0 {
                Err(HostError::ZeroPeriod)
            } else {
                Ok(Some(osc_value(t, p)))
            },
        },
        _ => Ok(None),
    }
}

/// The draw commands a whole run appends: each call's effect in order, up
/// to and including the first failing call (which itself appends nothing).
pub open spec fn trace_effect(calls: Seq<HostCall>, time: Option<Fx>) -> Seq<DrawCommand>
    decreases calls.len(),
{
    if calls.len() == 0 {
        Seq::empty()
    } else {
        match call_result(calls[0], time) {
            Err(_) => call_effect(calls[0], time),
            Ok(_) => call_effect(calls[0], time) + trace_effect(calls.drop_first(), time),
        }
    }
}

/// The outcome of a whole run: the first failing call's error, if any.
pub open spec fn trace_result(calls: Seq<HostCall>, time: Option<Fx>) -> Result<(), HostError>
    decreases calls.len(),
{
    if calls.len() == 0 {
        Ok(())
    } else {
        match call_result(calls[0], time) {
            Err(e) => Err(e),
            Ok(_) => trace_result(calls.drop_first(), time),
        }
    }
}

/// The active program after attempting a list of update outcomes in order:
/// each successful compile replaces the program, each failure leaves it,
/// so what remains is the last success, or `current` if there was none.
pub open spec fn last_ok<P>(outcomes: Seq<Result<P, String>>, current: P) -> P
    decreases outcomes.len(),
{
    if outcomes.len() == 0 {
        current
    } else {
        match outcomes.last() {
            Ok(p) => p,
            Err(_) => last_ok(outcomes.drop_last(), current),
        }
    }
}

/// The error texts a list of update outcomes produces, one per failed
/// attempt, in arrival order.
pub open spec fn update_errors<P>(outcomes: Seq<Result<P, String>>) -> Seq<String>
    decreases outcomes.len(),
{
    if outcomes.len() == 0 {
        Seq::empty()
    } else {
        update_errors(outcomes.drop_last()) + (match outcomes.last() {
            Ok(_) => Seq::<String>::empty(),
            Err(e) => seq![e],
        })
    }
}

/// Re-running a program is deterministic: the commands a run appends are a
/// function of the host calls the program makes and the injected time value
/// alone, so two runs of the same active program under the same time value
/// append identical command sequences and return identical outcomes.
pub proof fn lemma_rerun_same_commands(calls: Seq<HostCall>, t1: Option<Fx>, t2: Option<Fx>)
    requires
        t1 == t2,
    ensures
        trace_effect(calls, t1) == trace_effect(calls, t2),
        trace_result(calls, t1) == trace_result(calls, t2),
{
}

/// The script engine: the currently active compiled program, the variable
/// environment, and the queue of draw commands the running script has
/// produced.  `P` is the external interpreter's compiled-program
/// representation; the engine never looks inside it.
pub struct Lang<P> {
    ast: P,
    env: Environment,
    queue: DrawQueue,
}

impl<P> Lang<P> {
    /// The currently active program.
    pub closed spec fn active(self) -> P {
        self.ast
    }

    /// The draw commands queued and not yet drained, in emission order.
    pub closed spec fn queued(self) -> Seq<DrawCommand> {
        self.queue@
    }

    /// The value bound to `name` in the environment, if any.
    pub closed spec fn global(self, name: Seq<char>) -> Option<Fx> {
        lookup(self.env@, name)
    }

    /// A fresh engine around an initial compiled program, with an empty
    /// environment and an empty draw-command queue.  Compiling that initial
    /// program is the caller's task; a caller whose initial source does not
    /// compile has no program to start an engine with.
    pub fn new(ast: P) -> (l: Lang<P>)
        ensures
            l.active() == ast,
            l.queued() == Seq::<DrawCommand>::empty(),
            forall|name: Seq<char>| l.global(name) == None::<Fx>,
    {
        Lang { ast, env: Environment::new(), queue: DrawQueue::new() }
    }

    /// The currently active compiled program, for the external interpreter
    /// to execute.
    pub fn active_ast(&self) -> (p: &P)
        ensures
            *p == self.active(),
    {
        &self.ast
    }

    /// Applies the outcome of compiling and probing one candidate program.
    /// On success the candidate atomically replaces the active program; on
    /// failure the active program is left untouched and the formatted error
    /// is handed back for the editor.  Neither case touches the environment
    /// or the queue.
    pub fn try_update_ast(&mut self, candidate: Result<P, String>) -> (r: Result<(), String>)
        ensures
            final(self).queued() == old(self).queued(),
            forall|name: Seq<char>| final(self).global(name) == old(self).global(name),
            candidate matches Ok(p) ==> final(self).active() == p && r == Result::<(
            ), String>::Ok(()),
            candidate matches Err(e) ==> final(self).active() == old(self).active() && r
                == Result::<(), String>::Err(e),
    {
        match candidate {
            Ok(p) => {
                self.ast = p;
                Ok(())
            },
            Err(e) => Err(e),
        }
    }

    /// Binds `name` to `val` in the environment, leaving every other
    /// binding, the active program and the queue as they were.  The host
    /// environment calls this once per frame to inject the elapsed time
    /// under the name `time`.
    pub fn set_global(&mut self, name: &str, val: Fx)
        ensures
            final(self).active() == old(self).active(),
            final(self).queued() == old(self).queued(),
            final(self).global(name@) == Some(val),
            forall|other: Seq<char>|
                other != name@ ==> final(self).global(other) == old(self).global(other),
    {
        let key: String = name.to_owned();
        self.env.set(&key, val);
    }

    /// Removes and returns every queued draw command, in emission order,
    /// leaving the queue empty for the next frame.
    pub fn draw_commands(&mut self) -> (cmds: Vec<DrawCommand>)
        ensures
            cmds@ == old(self).queued(),
            final(self).queued() == Seq::<DrawCommand>::empty(),
            final(self).active() == old(self).active(),
            forall|name: Seq<char>| final(self).global(name) == old(self).global(name),
    {
        self.queue.drain()
    }

    /// Performs one host call on behalf of the running script: appends that
    /// call's draw commands to the queue and returns its value, or its
    /// error, exactly as [`call_effect`] and [`call_result`] state under
    /// the currently injected time value.
    pub fn dispatch(&mut self, call: &HostCall) -> (r: Result<Option<Fx>, HostError>)
        ensures
            final(self).active() == old(self).active(),
            forall|name: Seq<char>| final(self).global(name) == old(self).global(name),
            final(self).queued() == old(self).queued() + call_effect(
                *call,
                old(self).global("time"@),
            ),
            r == call_result(*call, old(self).global("time"@)),
    {
        let ghost pre_queue = self.queue@;
        match call {
            HostCall::EmitRect(x, y, w, h) => {
                let cx = x.add(w.mul(Fx { bits: FX_HALF }));
                let cy = y.add(h.mul(Fx { bits: FX_HALF }));
                let ox = w.mul(Fx { bits: FX_HALF }).neg();
                let oy = h.mul(Fx { bits: FX_HALF }).neg();
                self.queue.send(DrawCommand::PushTransform);
                self.queue.send(DrawCommand::Transform(Mat::translation(cx, cy)));
                self.queue.send(DrawCommand::Rect(Rect { x: ox, y: oy, w: *w, h: *h }));
                self.queue.send(DrawCommand::PopTransform);
                proof {
                    assert(self.queue@ =~= pre_queue + emit_rect_cmds(*x, *y, *w, *h));
                }
                Ok(None)
            },
            HostCall::SetFill(FillArg::Name(s)) => {
                match color_by_name(s) {
                    Some(c) => {
                        self.queue.send(DrawCommand::Fill(c));
                        proof {
                            assert(self.queue@ =~= pre_queue + seq![DrawCommand::Fill(c)]);
                        }
                        Ok(None)
                    },
                    None => {
                        proof {
                            assert(self.queue@ =~= pre_queue + Seq::<DrawCommand>::empty());
                        }
                        Err(HostError::UnknownColor(s.clone()))
                    },
                }
            },
            HostCall::SetFill(FillArg::Channels(v)) => {
                if v.len() == 4 {
                    let c = Color { r: v[0], g: v[1], b: v[2], a: v[3] };
                    self.queue.send(DrawCommand::Fill(c));
                    proof {
                        assert(self.queue@ =~= pre_queue + seq![DrawCommand::Fill(c)]);
                    }
                    Ok(None)
                } else {
                    let count = v.len();
                    proof {
                        assert(self.queue@ =~= pre_queue + Seq::<DrawCommand>::empty());
                    }
                    Err(HostError::ChannelCount(count))
                }
            },
            HostCall::Translate(x, y) => {
                self.queue.send(DrawCommand::Transform(Mat::translation(*x, *y)));
                proof {
                    assert(self.queue@ =~= pre_queue + seq![
                        DrawCommand::Transform(mat_translation(*x, *y)),
                    ]);
                }
                Ok(None)
            },
            HostCall::Rotate(a) => {
                self.queue.send(DrawCommand::Transform(Mat::rotation(*a)));
                proof {
                    assert(self.queue@ =~= pre_queue + seq![
                        DrawCommand::Transform(mat_rotation(*a)),
                    ]);
                }
                Ok(None)
            },
            HostCall::Scale(x, yo) => {
                let y = match yo {
                    Some(y) => *y,
                    None => *x,
                };
                self.queue.send(DrawCommand::Transform(Mat::scaling(*x, y)));
                proof {
                    assert(self.queue@ =~= pre_queue + seq![
                        DrawCommand::Transform(mat_scaling(*x, y)),
                    ]);
                }
                Ok(None)
            },
            HostCall::PushFrame => {
                self.queue.send(DrawCommand::PushTransform);
                proof {
                    assert(self.queue@ =~= pre_queue + seq![DrawCommand::PushTransform]);
                }
                Ok(None)
            },
            HostCall::PopFrame => {
                self.queue.send(DrawCommand::PopTransform);
                proof {
                    assert(self.queue@ =~= pre_queue + seq![DrawCommand::PopTransform]);
                }
                Ok(None)
            },
            HostCall::Oscillate(p) => {
                proof {
                    assert(self.queue@ =~= pre_queue + Seq::<DrawCommand>::empty());
                }
                let time_key: String = String::from_str("time");
                match self.env.get(&time_key) {
                    None => Err(HostError::TimeNotSet),
                    Some(t) => {
                        if p.bits == 0 {
                            Err(HostError::ZeroPeriod)
                        } else {
                            let phase = t.mul(Fx { bits: FX_PI }.div(*p));
                            Ok(Some(phase.sin().abs()))
                        }
                    },
                }
            },
        }
    }

    /// Re-executes the active program for one frame, given the host calls
    /// that execution makes, in order.  Each call's draw commands are
    /// appended in turn; the first failing call stops the run and its error
    /// is returned, with everything queued before the failure kept.  The
    /// active program is never discarded here, whatever the outcome.
    pub fn run_ast(&mut self, calls: &Vec<HostCall>) -> (r: Result<(), HostError>)
        ensures
            final(self).active() == old(self).active(),
            forall|name: Seq<char>| final(self).global(name) == old(self).global(name),
            final(self).queued() == old(self).queued() + trace_effect(
                calls@,
                old(self).global("time"@),
            ),
            r == trace_result(calls@, old(self).global("time"@)),
    {
        let ghost t0 = old(self).global("time"@);
        let ghost mut emitted = Seq::<DrawCommand>::empty();
        let n = calls.len();
        let mut i: usize = 0;
        proof {
            assert(calls@.skip(0) =~= calls@);
            assert(old(self).queued() + emitted =~= old(self).queued());
        }
        while i < n
            invariant
                i <= n,
                n == calls@.len(),
                self.active() == old(self).active(),
                forall|name: Seq<char>| self.global(name) == old(self).global(name),
                t0 == old(self).global("time"@),
                self.queued() == old(self).queued() + emitted,
                trace_effect(calls@, t0) == emitted + trace_effect(calls@.skip(i as int), t0),
                trace_result(calls@, t0) == trace_result(calls@.skip(i as int), t0),
            decreases n - i,
        {
            proof {
                assert(calls@.skip(i as int)[0] == calls@[i as int]);
                assert(calls@.skip(i as int).drop_first() =~= calls@.skip(i as int + 1));
            }
            let ghost e = call_effect(calls@[i as int], t0);
            let ghost pre_emitted = emitted;
            match self.dispatch(&calls[i]) {
                Ok(_) => {
                    proof {
                        emitted = emitted + e;
                        assert((pre_emitted + e) + trace_effect(calls@.skip(i as int + 1), t0)
                            =~= pre_emitted + (e + trace_effect(calls@.skip(i as int + 1), t0)));
                        assert(old(self).queued() + emitted =~= (old(self).queued() + pre_emitted)
                            + e);
                    }
                },
                Err(err) => {
                    proof {
                        assert(old(self).queued() + (pre_emitted + e) =~= (old(self).queued()
                            + pre_emitted) + e);
                    }
                    return Err(err);
                },
            }
            i = i + 1;
        }
        proof {
            assert(calls@.skip(n as int).len() == 0);
            assert(emitted + trace_effect(calls@.skip(n as int), t0) =~= emitted);
        }
        Ok(())
    }

    /// Attempts a whole frame's queued source updates, in arrival order:
    /// each outcome is applied as [`Self::try_update_ast`] does, and the
    /// formatted error of every failed attempt is collected, one entry per
    /// failure, for forwarding to the editor.  Afterwards the active
    /// program is the last successfully compiled candidate, or the old one
    /// if none succeeded.
    pub fn process_updates(&mut self, outcomes: Vec<Result<P, String>>) -> (errs: Vec<String>)
        ensures
            final(self).active() == last_ok(outcomes@, old(self).active()),
            errs@ == update_errors(outcomes@),
            final(self).queued() == old(self).queued(),
            forall|name: Seq<char>| final(self).global(name) == old(self).global(name),
    {
        let ghost all = outcomes@;
        let mut rest = outcomes;
        let mut errs: Vec<String> = Vec::new();
        let ghost mut i: int = 0;
        proof {
            assert(all.skip(0) =~= all);
            assert(all.take(0) =~= Seq::<Result<P, String>>::empty());
            assert(errs@ =~= update_errors(all.take(0)));
        }
        while rest.len() > 0
            invariant
                0 <= i <= all.len(),
                rest@ =~= all.skip(i),
                self.active() == last_ok(all.take(i), old(self).active()),
                errs@ == update_errors(all.take(i)),
                self.queued() == old(self).queued(),
                forall|name: Seq<char>| self.global(name) == old(self).global(name),
            decreases rest@.len(),
        {
            let outcome = rest.remove(0);
            proof {
                assert(all.skip(i)[0] == all[i]);
                assert(all.skip(i).remove(0) =~= all.skip(i + 1));
                assert(all.take(i + 1).drop_last() =~= all.take(i));
                assert(all.take(i + 1).last() == all[i]);
            }
            match self.try_update_ast(outcome) {
                Ok(_) => {
                    proof {
                        assert(errs@ =~= update_errors(all.take(i)) + Seq::<String>::empty());
                    }
                },
                Err(e) => {
                    proof {
                        assert(errs@.push(e) =~= update_errors(all.take(i)) + seq![e]);
                    }
                    errs.push(e);
                },
            }
            proof {
                i = i + 1;
            }
        }
        proof {
            assert(all.skip(i).len() == 0);
            assert(all.take(i) =~= all);
        }
        errs
    }
}

} // verus!
