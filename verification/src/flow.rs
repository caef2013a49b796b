//! The command-flow interpreter.
//!
//! A tree of control-flow nodes is evaluated over a JSON context. The
//! interpreter decides what comes next; what only the world outside can
//! tell it is handed to the caller: a leaf to run, a condition whose truth
//! the template engine has to find, an expression that the engine has to
//! evaluate. The caller reports what came of it and the interpreter goes
//! on. It is the same for pure and for write trees: it never looks into a
//! leaf.

use crate::config::model::{bindings_view, flow_view, BindingV, CommandWithControlFlow, FlowV};
use crate::json::{Json, JsonV};
use vstd::prelude::*;

verus! {

/// The value of a [`FlowError`].
pub enum Fault {
    /// A condition or an expression could not be evaluated; the engine's message.
    Template(Seq<char>),
    /// An assignment met a context that is neither an object nor `null`.
    NotAnObject,
    /// A leaf failed; the message of whoever ran it.
    Leaf(Seq<char>),
}

/// Why an evaluation stopped.
#[derive(Debug)]
pub enum FlowError {
    /// A condition or an expression could not be evaluated; the engine's message.
    Template(String),
    /// An assignment met a context that is neither an object nor `null`.
    NotAnObject,
    /// A leaf failed; the message of whoever ran it.
    Leaf(String),
}

impl View for FlowError {
    type V = Fault;

    open spec fn view(&self) -> Fault {
        match self {
            FlowError::Template(message) => Fault::Template(message@),
            FlowError::NotAnObject => Fault::NotAnObject,
            FlowError::Leaf(message) => Fault::Leaf(message@),
        }
    }
}

/// What an evaluation ends with: the final context or the reason it stopped.
pub type Outcome = Result<JsonV, Fault>;

/// The value of an outcome.
pub open spec fn outcome_view(outcome: Result<Json, FlowError>) -> Outcome {
    match outcome {
        Ok(context) => Ok(context@),
        Err(e) => Err(e@),
    }
}

/// What stands outside the interpreter: the template engine, which says
/// whether a condition counts as true and what an expression is worth, or
/// with which message it failed, and whoever runs the leaves.
#[verifier::reject_recursive_types(L)]
pub ghost struct Outside<L> {
    pub truth: spec_fn(Seq<char>, JsonV) -> Result<bool, Seq<char>>,
    pub value: spec_fn(Seq<char>, JsonV) -> Result<JsonV, Seq<char>>,
    pub leaf: spec_fn(L, JsonV) -> Outcome,
}

impl<L> Outside<L> {
    /// Whether `cond` counts as true against `context`.
    pub open spec fn truth_of(self, cond: Seq<char>, context: JsonV) -> Result<bool, Seq<char>> {
        (self.truth)(cond, context)
    }

    /// What `expr` is worth against `context`.
    pub open spec fn value_of(self, expr: Seq<char>, context: JsonV) -> Result<JsonV, Seq<char>> {
        (self.value)(expr, context)
    }

    /// What the leaf `l` makes of `context`.
    pub open spec fn leaf_of(self, l: L, context: JsonV) -> Outcome {
        (self.leaf)(l, context)
    }
}

/// The context after one assignment: `value`, what the expression is
/// worth, is bound to `key`. An expression without a value and a context
/// that takes no members end the evaluation.
pub open spec fn bound(key: Seq<char>, value: Result<JsonV, Seq<char>>, context: JsonV) -> Outcome {
    match value {
        Err(message) => Err(Fault::Template(message)),
        Ok(v) => match context.set(key, v) {
            None => Err(Fault::NotAnObject),
            Some(next) => Ok(next),
        },
    }
}

/// The context after the assignments `set[from..]` were made in order: each
/// expression is evaluated against the context as it stands and its value
/// bound to the key.
pub open spec fn eval_bindings<L>(set: Seq<BindingV>, from: nat, context: JsonV, outside: Outside<L>) -> Outcome
    decreases set.len() - from,
{
    if from >= set.len() {
        Ok(context)
    } else {
        match bound(
            set[from as int].key,
            outside.value_of(set[from as int].expr, context),
            context,
        ) {
            Err(e) => Err(e),
            Ok(next) => eval_bindings(set, from + 1, next, outside),
        }
    }
}

/// The outcome of the children `children[from..]`, each evaluated on the
/// context that the one before produced.
pub open spec fn eval_children<L>(
    children: Seq<FlowV<L>>,
    from: nat,
    context: JsonV,
    outside: Outside<L>,
) -> Outcome
    decreases children, children.len() - from,
{
    if from >= children.len() {
        Ok(context)
    } else {
        match eval_flow(children[from as int], context, outside) {
            Err(e) => Err(e),
            Ok(next) => eval_children(children, from + 1, next, outside),
        }
    }
}

/// The outcome of a tree on a context, where `outside` says what the
/// engine and the leaves answer.
///
/// A sequence evaluates its children left to right and ends with the
/// context of the last. An assignment binds each key to the value of its
/// expression. A branch evaluates `run`, then `cond` against what `run`
/// produced, then the branch that the truth of `cond` selects, on that same
/// context. The first failure ends the evaluation.
pub open spec fn eval_flow<L>(flow: FlowV<L>, context: JsonV, outside: Outside<L>) -> Outcome
    decreases flow, 0nat,
{
    match flow {
        FlowV::If { run, cond, on_true, on_false } => match eval_flow(*run, context, outside) {
            Err(e) => Err(e),
            Ok(mid) => match outside.truth_of(cond, mid) {
                Err(message) => Err(Fault::Template(message)),
                Ok(true) => eval_flow(*on_true, mid, outside),
                Ok(false) => eval_flow(*on_false, mid, outside),
            },
        },
        FlowV::Sequential(children) => eval_children(children, 0, context, outside),
        FlowV::Assign { set } => eval_bindings(set, 0, context, outside),
        FlowV::Command(l) => outside.leaf_of(l, context),
    }
}

/// Whether two worlds answer alike: every condition, every expression and
/// every leaf, on every context.
pub open spec fn alike<L>(first: Outside<L>, second: Outside<L>) -> bool {
    &&& forall|cond: Seq<char>, c: JsonV| #[trigger]
        first.truth_of(cond, c) == second.truth_of(cond, c)
    &&& forall|expr: Seq<char>, c: JsonV| #[trigger]
        first.value_of(expr, c) == second.value_of(expr, c)
    &&& forall|l: L, c: JsonV| #[trigger] first.leaf_of(l, c) == second.leaf_of(l, c)
}

/// The outcome of a list of assignments depends on the world only through
/// its answers.
proof fn lemma_bindings_deterministic<L>(
    set: Seq<BindingV>,
    from: nat,
    context: JsonV,
    first: Outside<L>,
    second: Outside<L>,
)
    requires
        alike(first, second),
    ensures
        eval_bindings(set, from, context, first) == eval_bindings(set, from, context, second),
    decreases set.len() - from,
{
    if from < set.len() {
        assert(first.value_of(set[from as int].expr, context) == second.value_of(
            set[from as int].expr,
            context,
        ));
        match bound(set[from as int].key, first.value_of(set[from as int].expr, context), context) {
            Ok(next) => lemma_bindings_deterministic(set, from + 1, next, first, second),
            Err(_) => {},
        }
    }
}

/// The outcome of a sequence depends on the world only through its
/// answers.
proof fn lemma_children_deterministic<L>(
    children: Seq<FlowV<L>>,
    from: nat,
    context: JsonV,
    first: Outside<L>,
    second: Outside<L>,
)
    requires
        alike(first, second),
    ensures
        eval_children(children, from, context, first) == eval_children(children, from, context, second),
    decreases children, children.len() - from,
{
    if from < children.len() {
        lemma_eval_deterministic(children[from as int], context, first, second);
        match eval_flow(children[from as int], context, first) {
            Ok(next) => lemma_children_deterministic(children, from + 1, next, first, second),
            Err(_) => {},
        }
    }
}

/// Evaluation is deterministic: the outcome of a tree on a context is
/// fixed by what the engine and the leaves answer. Two runs in which every
/// condition, expression and leaf is answered alike end alike.
pub proof fn lemma_eval_deterministic<L>(
    flow: FlowV<L>,
    context: JsonV,
    first: Outside<L>,
    second: Outside<L>,
)
    requires
        alike(first, second),
    ensures
        eval_flow(flow, context, first) == eval_flow(flow, context, second),
    decreases flow, 0nat,
{
    match flow {
        FlowV::If { run, cond, on_true, on_false } => {
            lemma_eval_deterministic(*run, context, first, second);
            match eval_flow(*run, context, first) {
                Ok(mid) => {
                    assert(first.truth_of(cond, mid) == second.truth_of(cond, mid));
                    lemma_eval_deterministic(*on_true, mid, first, second);
                    lemma_eval_deterministic(*on_false, mid, first, second);
                },
                Err(_) => {},
            }
        },
        FlowV::Sequential(children) => {
            lemma_children_deterministic(children, 0, context, first, second);
        },
        FlowV::Assign { set } => {
            lemma_bindings_deterministic(set, 0, context, first, second);
        },
        FlowV::Command(l) => {
            assert(first.leaf_of(l, context) == second.leaf_of(l, context));
        },
    }
}

/// The value of a [`Frame`].
pub enum FrameV<L> {
    Branch { cond: Seq<char>, on_true: FlowV<L>, on_false: FlowV<L> },
    Rest { children: Seq<FlowV<L>>, next: nat },
}

/// What is left to do once the part of the tree under evaluation is done.
pub enum Frame<'a, T> {
    /// The condition of a branch and the two trees it chooses between.
    Branch {
        cond: &'a String,
        on_true: &'a CommandWithControlFlow<T>,
        on_false: &'a CommandWithControlFlow<T>,
    },
    /// The children of a sequence from `next` on.
    Rest { children: &'a Vec<CommandWithControlFlow<T>>, next: usize },
}

/// The children of a sequence, each by its value.
pub open spec fn children_view<T: View>(children: Seq<CommandWithControlFlow<T>>) -> Seq<FlowV<T::V>> {
    Seq::new(children.len(), |i: int| flow_view(children[i]))
}

impl<'a, T: View> View for Frame<'a, T> {
    type V = FrameV<T::V>;

    open spec fn view(&self) -> FrameV<T::V> {
        match self {
            Frame::Branch { cond, on_true, on_false } => FrameV::Branch {
                cond: cond@,
                on_true: flow_view(**on_true),
                on_false: flow_view(**on_false),
            },
            Frame::Rest { children, next } => FrameV::Rest {
                children: children_view(children@),
                next: *next as nat,
            },
        }
    }
}

/// The frames of a stack, each by its value; the last is the innermost.
pub open spec fn frames_view<'a, T: View>(frames: Seq<Frame<'a, T>>) -> Seq<FrameV<T::V>> {
    Seq::new(frames.len(), |i: int| frames[i]@)
}

/// The rest of an evaluation that waits for a leaf.
pub struct Pending<'a, T> {
    pub frames: Vec<Frame<'a, T>>,
}

/// The rest of an evaluation that waits for the truth of a condition:
/// `cond` is to be evaluated against `context`; the tree chosen is then
/// evaluated on that context, and `frames` after it.
pub struct PendingBranch<'a, T> {
    pub cond: &'a String,
    pub context: Json,
    pub on_true: &'a CommandWithControlFlow<T>,
    pub on_false: &'a CommandWithControlFlow<T>,
    pub frames: Vec<Frame<'a, T>>,
}

/// The rest of an evaluation that waits for the value of an expression:
/// `expr` is to be evaluated against `context` and its value bound to
/// `key`; the assignments `set[next..]` follow, and `frames` after them.
pub struct PendingBinding<'a, T> {
    pub key: &'a String,
    pub expr: &'a String,
    pub context: Json,
    pub set: &'a Vec<(String, String)>,
    pub next: usize,
    pub frames: Vec<Frame<'a, T>>,
}

/// Where an evaluation stands: at its end, or at something that the caller
/// has to find out.
pub enum FlowStep<'a, T> {
    /// The evaluation has ended.
    Done(Result<Json, FlowError>),
    /// `leaf` is to be run on `context`; what it produces goes to
    /// [`flow_resume`] together with `pending`.
    Leaf { leaf: &'a T, context: Json, pending: Pending<'a, T> },
    /// A condition is to be evaluated; its truth goes to [`flow_decide`].
    Condition(PendingBranch<'a, T>),
    /// An expression is to be evaluated; its value goes to
    /// [`flow_assign`].
    Expression(PendingBinding<'a, T>),
}

/// What the engine found: a truth value, or its message where it failed.
pub open spec fn truth_view(truth: Result<bool, String>) -> Result<bool, Seq<char>> {
    match truth {
        Ok(t) => Ok(t),
        Err(message) => Err(message@),
    }
}

/// What the engine found: a value, or its message where it failed.
pub open spec fn value_view(value: Result<Json, String>) -> Result<JsonV, Seq<char>> {
    match value {
        Ok(v) => Ok(v@),
        Err(message) => Err(message@),
    }
}

/// The outcome of the rest of an evaluation, given the outcome of the part
/// that was under evaluation. A failure ends everything; a context goes to
/// the innermost frame: a branch evaluates its condition against it and
/// then the tree chosen, a sequence its remaining children.
pub open spec fn resume<L>(frames: Seq<FrameV<L>>, outcome: Outcome, outside: Outside<L>) -> Outcome
    decreases frames.len(),
{
    if frames.len() == 0 {
        outcome
    } else {
        match outcome {
            Err(e) => Err(e),
            Ok(context) => {
                let rest = frames.drop_last();
                match frames.last() {
                    FrameV::Branch { cond, on_true, on_false } => match outside.truth_of(
                        cond,
                        context,
                    ) {
                        Err(message) => Err(Fault::Template(message)),
                        Ok(true) => resume(rest, eval_flow(on_true, context, outside), outside),
                        Ok(false) => resume(rest, eval_flow(on_false, context, outside), outside),
                    },
                    FrameV::Rest { children, next } => resume(
                        rest,
                        eval_children(children, next, context, outside),
                        outside,
                    ),
                }
            },
        }
    }
}

/// The outcome of an evaluation that stood at a condition, once its truth
/// is known: a condition that could not be evaluated ends the evaluation;
/// with the engine's message; otherwise the tree chosen is evaluated on
/// `context` and `frames` after it.
pub open spec fn decided<L>(
    truth: Result<bool, Seq<char>>,
    on_true: FlowV<L>,
    on_false: FlowV<L>,
    context: JsonV,
    frames: Seq<FrameV<L>>,
    outside: Outside<L>,
) -> Outcome {
    match truth {
        Err(message) => Err(Fault::Template(message)),
        Ok(true) => resume(frames, eval_flow(on_true, context, outside), outside),
        Ok(false) => resume(frames, eval_flow(on_false, context, outside), outside),
    }
}

/// The outcome of an evaluation that stood at an expression, once its
/// value is known: the value is bound to `key`, the assignments
/// `set[next..]` follow, and `frames` after them.
pub open spec fn assigned<L>(
    value: Result<JsonV, Seq<char>>,
    key: Seq<char>,
    context: JsonV,
    set: Seq<BindingV>,
    next: nat,
    frames: Seq<FrameV<L>>,
    outside: Outside<L>,
) -> Outcome {
    match bound(key, value, context) {
        Err(e) => Err(e),
        Ok(after) => resume(frames, eval_bindings(set, next, after, outside), outside),
    }
}

/// The outcome that a step stands for, where `outside` says what the
/// engine and the leaves answer.
pub open spec fn step_outcome<'a, T: View>(step: FlowStep<'a, T>, outside: Outside<T::V>) -> Outcome {
    match step {
        FlowStep::Done(r) => outcome_view(r),
        FlowStep::Leaf { leaf: l, context, pending } => resume(
            frames_view(pending.frames@),
            outside.leaf_of(l@, context@),
            outside,
        ),
        FlowStep::Condition(p) => decided(
            outside.truth_of(p.cond@, p.context@),
            flow_view(*p.on_true),
            flow_view(*p.on_false),
            p.context@,
            frames_view(p.frames@),
            outside,
        ),
        FlowStep::Expression(p) => assigned(
            outside.value_of(p.expr@, p.context@),
            p.key@,
            p.context@,
            bindings_view(p.set@),
            p.next as nat,
            frames_view(p.frames@),
            outside,
        ),
    }
}

/// The size of a tree, counted so that every step of the interpreter has
/// less left to do than the one before.
pub closed spec fn weight<L>(flow: FlowV<L>) -> nat
    decreases flow, 0nat,
{
    match flow {
        FlowV::If { run, cond, on_true, on_false } => 2 + weight(*run) + weight(*on_true) + weight(
            *on_false,
        ),
        FlowV::Sequential(children) => 2 + weights(children, 0),
        FlowV::Assign { set } => 1,
        FlowV::Command(l) => 1,
    }
}

/// The size of the children `children[from..]`.
pub closed spec fn weights<L>(children: Seq<FlowV<L>>, from: nat) -> nat
    decreases children, children.len() - from,
{
    if from >= children.len() {
        0
    } else {
        1 + weight(children[from as int]) + weights(children, from + 1)
    }
}

/// The size of what a frame leaves to do.
pub closed spec fn frame_weight<L>(frame: FrameV<L>) -> nat {
    match frame {
        FrameV::Branch { cond, on_true, on_false } => 1 + weight(on_true) + weight(on_false),
        FrameV::Rest { children, next } => 1 + weights(children, next),
    }
}

/// The size of what a stack of frames leaves to do.
pub closed spec fn stack_weight<L>(frames: Seq<FrameV<L>>) -> nat
    decreases frames.len(),
{
    if frames.len() == 0 {
        0
    } else {
        stack_weight(frames.drop_last()) + frame_weight(frames.last())
    }
}

/// A failure passes every frame unchanged.
proof fn lemma_resume_failure<L>(frames: Seq<FrameV<L>>, e: Fault, outside: Outside<L>)
    ensures
        resume(frames, Err(e), outside) == Err::<JsonV, Fault>(e),
{
}

/// Pushing a frame onto a stack appends its value to the stack's value.
proof fn lemma_push_frame<'a, T: View>(frames: Seq<Frame<'a, T>>, frame: Frame<'a, T>)
    ensures
        frames_view(frames.push(frame)) == frames_view(frames).push(frame@),
        frames_view(frames.push(frame)).drop_last() == frames_view(frames),
        frames_view(frames.push(frame)).last() == frame@,
        stack_weight(frames_view(frames.push(frame))) == stack_weight(frames_view(frames))
            + frame_weight(frame@),
{
    assert(frames_view(frames.push(frame)) =~= frames_view(frames).push(frame@));
    assert(frames_view(frames).push(frame@).drop_last() =~= frames_view(frames));
}

/// Popping a frame off a stack removes the last value of the stack's value.
proof fn lemma_pop_frame<'a, T: View>(frames: Seq<Frame<'a, T>>)
    requires
        frames.len() > 0,
    ensures
        frames_view(frames.drop_last()) == frames_view(frames).drop_last(),
        frames_view(frames).last() == frames.last()@,
        stack_weight(frames_view(frames)) == stack_weight(frames_view(frames.drop_last()))
            + frame_weight(frames.last()@),
{
    assert(frames_view(frames.drop_last()) =~= frames_view(frames).drop_last());
}

/// The value of a sequence node holds the values of its children.
pub proof fn lemma_sequence_view<T: View>(flow: CommandWithControlFlow<T>)
    requires
        flow is Sequential,
    ensures
        flow_view(flow) == FlowV::Sequential(children_view(flow->Sequential_0@)),
{
    assert(flow_view(flow)->Sequential_0 =~= children_view(flow->Sequential_0@));
}

/// Evaluates `flow` on `context` with `frames` left to do after it.
fn enter<'a, T: View>(
    flow: &'a CommandWithControlFlow<T>,
    context: Json,
    frames: Vec<Frame<'a, T>>,
) -> (r: FlowStep<'a, T>)
    ensures
        forall|outside: Outside<T::V>| #[trigger]
            step_outcome(r, outside) == resume(
                frames_view(frames@),
                eval_flow(flow@, context@, outside),
                outside,
            ),
    decreases weight(flow@) + stack_weight(frames_view(frames@)), 1nat,
{
    let ghost below = frames_view(frames@);
    let mut frames = frames;
    match flow {
        CommandWithControlFlow::If { run, cond, on_true, on_false } => {
            let frame = Frame::Branch { cond, on_true: &**on_true, on_false: &**on_false };
            proof {
                lemma_push_frame(frames@, frame);
            }
            frames.push(frame);
            let r = enter(&**run, context, frames);
            proof {
                assert forall|outside: Outside<T::V>| #[trigger]
                    step_outcome(r, outside) == resume(
                        below,
                        eval_flow(flow@, context@, outside),
                        outside,
                    ) by {
                    match eval_flow(flow_view(**run), context@, outside) {
                        Err(e) => {
                            lemma_resume_failure(below, e, outside);
                        },
                        Ok(mid) => {
                            match outside.truth_of(cond@, mid) {
                                Err(message) => {
                                    lemma_resume_failure(below, Fault::Template(message), outside);
                                },
                                Ok(_) => {},
                            }
                        },
                    }
                }
            }
            r
        },
        CommandWithControlFlow::Sequential(children) => {
            let frame = Frame::Rest { children, next: 0 };
            proof {
                lemma_push_frame(frames@, frame);
                lemma_sequence_view(*flow);
            }
            frames.push(frame);
            unwind(frames, Ok(context))
        },
        CommandWithControlFlow::Assign { set } => bind_from(set, 0, context, frames),
        CommandWithControlFlow::Command(leaf) => FlowStep::Leaf {
            leaf,
            context,
            pending: Pending { frames },
        },
    }
}

/// Goes on with the assignments `set[at..]` on `context`, with `frames`
/// left to do after them: the next expression is handed out, or, where
/// none is left, the frames take over.
fn bind_from<'a, T: View>(
    set: &'a Vec<(String, String)>,
    at: usize,
    context: Json,
    frames: Vec<Frame<'a, T>>,
) -> (r: FlowStep<'a, T>)
    ensures
        forall|outside: Outside<T::V>| #[trigger]
            step_outcome(r, outside) == resume(
                frames_view(frames@),
                eval_bindings(bindings_view(set@), at as nat, context@, outside),
                outside,
            ),
    decreases stack_weight(frames_view(frames@)), 1nat,
{
    if at < set.len() {
        let ghost below = frames_view(frames@);
        let ghost ctx = context@;
        let r = FlowStep::Expression(
            PendingBinding { key: &set[at].0, expr: &set[at].1, context, set, next: at + 1, frames },
        );
        proof {
            assert(bindings_view(set@)[at as int].key == set[at as int].0@);
            assert(bindings_view(set@)[at as int].expr == set[at as int].1@);
            assert forall|outside: Outside<T::V>| #[trigger]
                step_outcome(r, outside) == resume(
                    below,
                    eval_bindings(bindings_view(set@), at as nat, ctx, outside),
                    outside,
                ) by {
                match bound(set[at as int].0@, outside.value_of(set[at as int].1@, ctx), ctx) {
                    Err(e) => {
                        lemma_resume_failure(below, e, outside);
                    },
                    Ok(after) => {},
                }
            }
        }
        r
    } else {
        unwind(frames, Ok(context))
    }
}

/// Continues with what `frames` leaves to do, given the outcome of the part
/// that was under evaluation.
fn unwind<'a, T: View>(frames: Vec<Frame<'a, T>>, outcome: Result<Json, FlowError>) -> (r: FlowStep<
    'a,
    T,
>)
    ensures
        forall|outside: Outside<T::V>| #[trigger]
            step_outcome(r, outside) == resume(frames_view(frames@), outcome_view(outcome), outside),
    decreases stack_weight(frames_view(frames@)), 0nat,
{
    let ghost all = frames_view(frames@);
    let mut frames = frames;
    match outcome {
        Err(e) => {
            proof {
                assert forall|outside: Outside<T::V>|
                    resume(all, Err(e@), outside) == Err::<JsonV, Fault>(e@) by {
                    lemma_resume_failure(all, e@, outside);
                }
            }
            FlowStep::Done(Err(e))
        },
        Ok(context) => {
            proof {
                if frames.len() > 0 {
                    lemma_pop_frame(frames@);
                }
            }
            match frames.pop() {
                None => FlowStep::Done(Ok(context)),
                Some(frame) => {
                    let ghost below = frames_view(frames@);
                    match frame {
                        Frame::Branch { cond, on_true, on_false } => FlowStep::Condition(
                            PendingBranch { cond, context, on_true, on_false, frames },
                        ),
                        Frame::Rest { children, next } => {
                            if next < children.len() {
                                let again = Frame::Rest { children, next: next + 1 };
                                proof {
                                    lemma_push_frame(frames@, again);
                                }
                                frames.push(again);
                                let ghost ctx = context@;
                                let r = enter(&children[next], context, frames);
                                proof {
                                    let kids = children_view(children@);
                                    assert forall|outside: Outside<T::V>| #[trigger]
                                        step_outcome(r, outside) == resume(all, Ok(ctx), outside) by {
                                        match eval_flow(kids[next as int], ctx, outside) {
                                            Err(e) => {
                                                lemma_resume_failure(below, e, outside);
                                            },
                                            Ok(mid) => {},
                                        }
                                    }
                                }
                                r
                            } else {
                                unwind(frames, Ok(context))
                            }
                        },
                    }
                },
            }
        },
    }
}

/// Starts the evaluation of `flow` on `context` and runs it up to the first
/// thing that the caller has to find out, or to its end.
pub fn flow_start<'a, T: View>(flow: &'a CommandWithControlFlow<T>, context: Json) -> (r: FlowStep<
    'a,
    T,
>)
    ensures
        forall|outside: Outside<T::V>| #[trigger]
            step_outcome(r, outside) == eval_flow(flow@, context@, outside),
{
    let frames: Vec<Frame<'a, T>> = Vec::new();
    assert(frames_view(frames@) =~= Seq::empty());
    enter(flow, context, frames)
}

/// Continues an evaluation with what a leaf produced.
pub fn flow_resume<'a, T: View>(pending: Pending<'a, T>, outcome: Result<Json, FlowError>) -> (r:
    FlowStep<'a, T>)
    ensures
        forall|outside: Outside<T::V>| #[trigger]
            step_outcome(r, outside) == resume(
                frames_view(pending.frames@),
                outcome_view(outcome),
                outside,
            ),
{
    unwind(pending.frames, outcome)
}

/// Continues an evaluation with the truth of the condition it stood at:
/// the truth value that the engine found, or the engine's message where it
/// could not evaluate the condition.
pub fn flow_decide<'a, T: View>(pending: PendingBranch<'a, T>, truth: Result<bool, String>) -> (r:
    FlowStep<'a, T>)
    ensures
        forall|outside: Outside<T::V>| #[trigger]
            step_outcome(r, outside) == decided(
                truth_view(truth),
                flow_view(*pending.on_true),
                flow_view(*pending.on_false),
                pending.context@,
                frames_view(pending.frames@),
                outside,
            ),
{
    match truth {
        Err(message) => FlowStep::Done(Err(FlowError::Template(message))),
        Ok(true) => enter(pending.on_true, pending.context, pending.frames),
        Ok(false) => enter(pending.on_false, pending.context, pending.frames),
    }
}

/// Continues an evaluation with the value of the expression it stood at:
/// the value that the engine found, or the engine's message where it could
/// not evaluate the expression.
pub fn flow_assign<'a, T: View>(pending: PendingBinding<'a, T>, value: Result<Json, String>) -> (r:
    FlowStep<'a, T>)
    ensures
        forall|outside: Outside<T::V>| #[trigger]
            step_outcome(r, outside) == assigned(
                value_view(value),
                pending.key@,
                pending.context@,
                bindings_view(pending.set@),
                pending.next as nat,
                frames_view(pending.frames@),
                outside,
            ),
{
    let ghost below = frames_view(pending.frames@);
    match value {
        Err(message) => FlowStep::Done(Err(FlowError::Template(message))),
        Ok(v) => match pending.context.set(pending.key.clone(), v) {
            Err(_) => FlowStep::Done(Err(FlowError::NotAnObject)),
            Ok(after) => bind_from(pending.set, pending.next, after, pending.frames),
        },
    }
}

} // verus!
