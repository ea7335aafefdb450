//! The update loop: it owns the model, feeds it the messages one at a time in
//! the order of their arrival, and renders again only when the model asks
//! for it.
//!
//! The loop is either idle or in a render pass. A render pass begins when a
//! transition hands back [`ControlFlow::Rebuild`] and ends when the caller,
//! who hands the tree to the render target, says so with
//! [`Runtime::finish`]. A message that arrives during a render pass waits in
//! a queue.

use std::collections::VecDeque;
use vstd::prelude::*;
use crate::fault::Fault;
use crate::flow::ControlFlow;
use crate::flow::Model;
use crate::node::Node;
use crate::node::NodeSpec;
use crate::node::Render;
use crate::node::nodes_view;

verus! {

/// Where the update loop stands.
#[derive(Clone, Copy, Debug, PartialEq, Eq, Structural)]
pub enum Phase {
    /// Waiting for the next message.
    Idle,
    /// A render pass is under way.
    Rendering,
}

/// What the caller of the update loop has to do next.
#[derive(Clone, Copy, Debug, PartialEq, Eq, Structural)]
pub enum Action {
    /// Nothing: the mounted tree stays as it is.
    Skip,
    /// Nothing yet: a render pass is under way and the message waits.
    Queued,
    /// Hand the tree to the render target, then finish the pass.
    Render,
    /// The view function failed and the pass is aborted: report the fault,
    /// then finish the pass. The mounted tree stays as it is.
    Fault(Fault),
}

/// The state of the update loop: the model, the phase and the messages that wait.
pub struct LoopState<T, M> {
    pub model: T,
    pub phase: Phase,
    pub pending: Seq<M>,
}

/// The state after the messages have been handled one after the other, first to last.
pub open spec fn apply_all<T: Model<M>, M>(model: T, msgs: Seq<M>) -> T
    decreases msgs.len(),
{
    if msgs.len() == 0 {
        model
    } else {
        apply_all(model, msgs.drop_last()).next(msgs.last())
    }
}

impl<T: Model<M>, M> LoopState<T, M> {
    /// An idle loop has no message waiting.
    pub open spec fn wf(self) -> bool {
        self.phase is Idle ==> self.pending.len() == 0
    }

    /// The model once every message that was accepted has been handled.
    pub open spec fn settled(self) -> T {
        apply_all(self.model, self.pending)
    }

    /// Whether a message that arrives now starts a render pass.
    pub open spec fn dispatch_renders(self, msg: M) -> bool {
        self.phase is Idle && self.model.signal(msg) is Rebuild
    }

    /// The state after a message has arrived: an idle loop handles it at
    /// once, a rendering loop puts it at the end of the queue.
    pub open spec fn dispatch(self, msg: M) -> Self {
        match self.phase {
            Phase::Rendering => LoopState { pending: self.pending.push(msg), ..self },
            Phase::Idle => LoopState {
                model: self.model.next(msg),
                phase: if self.model.signal(msg) is Rebuild {
                    Phase::Rendering
                } else {
                    Phase::Idle
                },
                pending: self.pending,
            },
        }
    }

    /// Whether the end of the current render pass starts another one: a
    /// waiting message asks for a rebuild.
    pub open spec fn finish_renders(self) -> bool
        decreases self.pending.len(),
    {
        if self.phase is Idle || self.pending.len() == 0 {
            false
        } else if self.model.signal(self.pending[0]) is Rebuild {
            true
        } else {
            (LoopState {
                model: self.model.next(self.pending[0]),
                pending: self.pending.skip(1),
                ..self
            }).finish_renders()
        }
    }

    /// The state after the current render pass has ended: the waiting
    /// messages are handled in order, up to and including the first that
    /// asks for a rebuild; with none that does, the loop is idle.
    pub open spec fn finish(self) -> Self
        decreases self.pending.len(),
    {
        if self.phase is Idle {
            self
        } else if self.pending.len() == 0 {
            LoopState { phase: Phase::Idle, ..self }
        } else {
            let rest = LoopState {
                model: self.model.next(self.pending[0]),
                pending: self.pending.skip(1),
                ..self
            };
            if self.model.signal(self.pending[0]) is Rebuild {
                rest
            } else {
                rest.finish()
            }
        }
    }
}

/// Handling a list of messages is handling the first, then the rest.
pub proof fn lemma_apply_all_front<T: Model<M>, M>(model: T, msgs: Seq<M>)
    requires
        msgs.len() > 0,
    ensures
        apply_all(model, msgs) == apply_all(model.next(msgs[0]), msgs.skip(1)),
    decreases msgs.len(),
{
    let rest = msgs.skip(1);
    if msgs.len() == 1 {
        assert(apply_all(model, msgs.drop_last()) == model);
        assert(apply_all(model.next(msgs[0]), rest) == model.next(msgs[0]));
    } else {
        lemma_apply_all_front(model, msgs.drop_last());
        assert(msgs.drop_last().skip(1) =~= rest.drop_last());
        assert(rest.last() == msgs.last());
        assert(apply_all(model.next(msgs[0]), rest) == apply_all(
            model.next(msgs[0]),
            rest.drop_last(),
        ).next(rest.last()));
    }
}

/// A message that arrives is handled after every message that arrived
/// before it: whether it is handled at once or waits, the model that the
/// loop settles on is the one it would have settled on, after this message.
pub proof fn law_dispatch_keeps_order<T: Model<M>, M>(state: LoopState<T, M>, msg: M)
    requires
        state.wf(),
    ensures
        state.dispatch(msg).wf(),
        state.dispatch(msg).settled() == state.settled().next(msg),
{
    if state.phase is Rendering {
        assert(state.pending.push(msg).drop_last() =~= state.pending);
    }
}

/// The end of a render pass drops no message and reorders none: the model
/// that the loop settles on stays the same. An idle loop has settled.
pub proof fn law_finish_keeps_order<T: Model<M>, M>(state: LoopState<T, M>)
    requires
        state.wf(),
    ensures
        state.finish().wf(),
        state.finish().settled() == state.settled(),
        state.finish().phase is Idle ==> state.finish().model == state.settled(),
        state.finish().pending.len() <= state.pending.len(),
    decreases state.pending.len(),
{
    if state.phase is Rendering && state.pending.len() > 0 {
        let rest = LoopState {
            model: state.model.next(state.pending[0]),
            pending: state.pending.skip(1),
            ..state
        };
        lemma_apply_all_front(state.model, state.pending);
        if !(state.model.signal(state.pending[0]) is Rebuild) {
            law_finish_keeps_order(rest);
        }
    }
}

/// Two messages that arrive at an idle loop, in the order `first`, `second`,
/// leave the model that two transitions in that order give, whether the
/// second was handled at once or had to wait for the end of a render pass.
pub proof fn law_messages_apply_in_order<T: Model<M>, M>(
    state: LoopState<T, M>,
    first: M,
    second: M,
)
    requires
        state.wf(),
        state.phase is Idle,
    ensures
        state.dispatch(first).dispatch(second).settled() == state.model.next(first).next(second),
        state.dispatch(first).finish().dispatch(second).settled() == state.model.next(first).next(
            second,
        ),
        ({
            let end = state.dispatch(first).dispatch(second).finish().finish();
            &&& end.phase is Idle
            &&& end.pending.len() == 0
            &&& end.model == state.model.next(first).next(second)
        }),
{
    law_dispatch_keeps_order(state, first);
    law_dispatch_keeps_order(state.dispatch(first), second);
    law_finish_keeps_order(state.dispatch(first));
    law_dispatch_keeps_order(state.dispatch(first).finish(), second);
    let queued = state.dispatch(first).dispatch(second);
    let once = queued.finish();
    let twice = once.finish();
    law_finish_keeps_order(queued);
    law_finish_keeps_order(once);
    if queued.phase is Rendering && queued.pending.len() > 0 {
        assert(queued.pending =~= seq![second]);
        let rest = LoopState {
            model: queued.model.next(second),
            pending: queued.pending.skip(1),
            ..queued
        };
        assert(rest.pending.len() == 0);
        assert(rest.finish().phase is Idle);
        assert(once == rest || once == rest.finish());
    }
    assert(once.pending.len() == 0);
    assert(twice.phase is Idle);
}

/// Whether the view function `build` accepts every model.
pub open spec fn accepts_all<T, R, VB: Fn(&T) -> R>(build: VB) -> bool {
    forall|model: T| #[trigger] call_requires(build, (&model,))
}

/// Whether `outcome` is what the view function `build` gives for `model`:
/// the nodes of the view it returns, or its fault.
pub open spec fn builds<T, M: View, V: Render<M>, VB: Fn(&T) -> Result<V, Fault>>(
    build: VB,
    model: T,
    outcome: Result<Seq<NodeSpec<M::V>>, Fault>,
) -> bool {
    match outcome {
        Ok(nodes) => exists|view: V| #[trigger]
            call_ensures(build, (&model,), Ok::<V, Fault>(view)) && view.nodes() == nodes,
        Err(fault) => call_ensures(build, (&model,), Err::<V, Fault>(fault)),
    }
}

/// What a render pass for `model` does to the mounted tree: it replaces it
/// by the tree that the view function gives, or, if that fails, leaves it.
pub open spec fn render_outcome<T, M: View, V: Render<M>, VB: Fn(&T) -> Result<V, Fault>>(
    build: VB,
    model: T,
    before: Option<Vec<Node<M>>>,
    after: Option<Vec<Node<M>>>,
    action: Action,
) -> bool {
    match action {
        Action::Render => after is Some && builds(build, model, Ok(nodes_view(after->0@))),
        Action::Fault(fault) => after == before && builds(build, model, Err(fault)),
        _ => false,
    }
}

/// The update loop for a model of type `T`, messages of type `M` and a view
/// function of type `VB`.
pub struct Runtime<T, M, VB> {
    model: T,
    view_builder: VB,
    tree: Option<Vec<Node<M>>>,
    phase: Phase,
    pending: VecDeque<M>,
}

impl<T, M, VB> View for Runtime<T, M, VB> {
    type V = LoopState<T, M>;

    closed spec fn view(&self) -> LoopState<T, M> {
        LoopState { model: self.model, phase: self.phase, pending: self.pending@ }
    }
}

impl<T, M, VB> Runtime<T, M, VB> {
    /// The view function.
    pub closed spec fn builder(&self) -> VB {
        self.view_builder
    }

    /// The tree of the last render pass that succeeded: what the render
    /// target shows once it has been handed over.
    pub closed spec fn mounted(&self) -> Option<Vec<Node<M>>> {
        self.tree
    }

    /// The model.
    pub fn model(&self) -> (model: &T)
        ensures
            *model == self@.model,
    {
        &self.model
    }

    /// The phase.
    pub fn phase(&self) -> (phase: Phase)
        ensures
            phase == self@.phase,
    {
        self.phase
    }

    /// The number of messages that wait.
    pub fn pending(&self) -> (n: usize)
        ensures
            n == self@.pending.len(),
    {
        self.pending.len()
    }

    /// The tree of the last render pass that succeeded.
    pub fn tree(&self) -> (tree: Option<&Vec<Node<M>>>)
        ensures
            match tree {
                Some(nodes) => self.mounted() == Some(*nodes),
                None => self.mounted() is None,
            },
    {
        self.tree.as_ref()
    }
}

impl<T, M, V, VB> Runtime<T, M, VB> where
    T: Model<M>,
    M: View,
    V: Render<M>,
    VB: Fn(&T) -> Result<V, Fault>,
 {
    /// The loop is well formed, and the view function accepts every model.
    pub open spec fn wf(&self) -> bool {
        &&& self@.wf()
        &&& accepts_all(self.builder())
    }

    /// Runs the view function on the model and keeps the tree if there is one.
    fn render_pass(&mut self) -> (action: Action)
        requires
            accepts_all(old(self).builder()),
        ensures
            final(self)@ == old(self)@,
            final(self).builder() == old(self).builder(),
            render_outcome(
                old(self).builder(),
                old(self)@.model,
                old(self).mounted(),
                final(self).mounted(),
                action,
            ),
    {
        assert(call_requires(self.view_builder, (&self.model,)));
        match (self.view_builder)(&self.model) {
            Ok(view) => {
                self.tree = Some(view.render());
                Action::Render
            },
            Err(fault) => Action::Fault(fault),
        }
    }

    /// Starts the loop with its first render pass, which does not wait for a
    /// message.
    pub fn start(model: T, view_builder: VB) -> (started: (Self, Action))
        requires
            accepts_all(view_builder),
        ensures
            started.0.wf(),
            started.0.builder() == view_builder,
            started.0@ == (LoopState {
                model,
                phase: Phase::Rendering,
                pending: Seq::<M>::empty(),
            }),
            render_outcome(view_builder, model, None, started.0.mounted(), started.1),
    {
        let mut runtime = Runtime {
            model,
            view_builder,
            tree: None,
            phase: Phase::Rendering,
            pending: VecDeque::new(),
        };
        let action = runtime.render_pass();
        (runtime, action)
    }

    /// Takes a message. An idle loop handles it at once and, if the model
    /// asks for it, starts a render pass; during a render pass the message
    /// waits in the queue.
    pub fn dispatch(&mut self, msg: M) -> (action: Action)
        requires
            old(self).wf(),
        ensures
            final(self).wf(),
            final(self).builder() == old(self).builder(),
            final(self)@ == old(self)@.dispatch(msg),
            old(self)@.phase is Rendering ==> action == Action::Queued,
            old(self)@.phase is Idle && !old(self)@.dispatch_renders(msg) ==> action
                == Action::Skip,
            !old(self)@.dispatch_renders(msg) ==> final(self).mounted() == old(self).mounted(),
            old(self)@.dispatch_renders(msg) ==> render_outcome(
                old(self).builder(),
                final(self)@.model,
                old(self).mounted(),
                final(self).mounted(),
                action,
            ),
    {
        match self.phase {
            Phase::Rendering => {
                self.pending.push_back(msg);
                Action::Queued
            },
            Phase::Idle => {
                match self.model.handle(msg) {
                    ControlFlow::Pending => Action::Skip,
                    ControlFlow::Rebuild => {
                        self.phase = Phase::Rendering;
                        self.render_pass()
                    },
                }
            },
        }
    }

    /// Ends the current render pass. The messages that wait are handled in
    /// the order of their arrival; the first that asks for a rebuild starts
    /// the next render pass, and the rest go on waiting. With none that
    /// does, the loop is idle again. On an idle loop this does nothing.
    pub fn finish(&mut self) -> (action: Action)
        requires
            old(self).wf(),
        ensures
            final(self).wf(),
            final(self).builder() == old(self).builder(),
            final(self)@ == old(self)@.finish(),
            !old(self)@.finish_renders() ==> action == Action::Skip && final(self).mounted() == old(
                self,
            ).mounted(),
            old(self)@.finish_renders() ==> render_outcome(
                old(self).builder(),
                final(self)@.model,
                old(self).mounted(),
                final(self).mounted(),
                action,
            ),
    {
        match self.phase {
            Phase::Idle => {
                return Action::Skip;
            },
            Phase::Rendering => {},
        }
        loop
            invariant
                self@.phase is Rendering,
                self@.finish() == old(self)@.finish(),
                self@.finish_renders() == old(self)@.finish_renders(),
                self.builder() == old(self).builder(),
                self.mounted() == old(self).mounted(),
                accepts_all(self.builder()),
            decreases self.pending@.len(),
        {
            let ghost before = self@;
            match self.pending.pop_front() {
                None => {
                    self.phase = Phase::Idle;
                    return Action::Skip;
                },
                Some(msg) => {
                    assert(self.pending@ =~= before.pending.skip(1));
                    match self.model.handle(msg) {
                        ControlFlow::Pending => {},
                        ControlFlow::Rebuild => {
                            return self.render_pass();
                        },
                    }
                },
            }
        }
    }
}

} // verus!
