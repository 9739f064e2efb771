//! The effect bundle that every component operation returns: immediate messages,
//! deferred commands and actions, and how a parent lifts a child's bundle into
//! its own message type.
use vstd::prelude::*;
use crate::action::Action;
use crate::envelope::{ComponentMsg, map_all, mapped_by, payloads};

verus! {

/// Why a command's outside work failed.
#[derive(Clone, Debug)]
pub struct CommandError {
    pub message: String,
}

/// What a command hands back when its outside work is done: the messages it
/// yields, in order, or the failure.
pub type Outcome<T> = Result<Vec<ComponentMsg<T>>, CommandError>;

/// The effects of one component operation.
///
/// `C` is the type of a deferred command: outside work that, once done, yields an
/// [`Outcome`] of messages. `J` is the type of a background job carried by
/// [`Action::Spawn`].
pub struct ComponentReturn<T, C, J> {
    pub msgs: Vec<ComponentMsg<T>>,
    pub cmds: Vec<C>,
    pub actions: Vec<Action<J>>,
}

/// `out` is `input` with each item passed through `f`, one for one and in order.
pub open spec fn each_mapped_by<X, Y, F: Fn(X) -> Y>(f: F, input: Seq<X>, out: Seq<Y>) -> bool {
    &&& out.len() == input.len()
    &&& forall|i: int| 0 <= i < input.len() ==> f.ensures((input[i],), #[trigger] out[i])
}

/// `out` is the outcome `input` relabeled by `f`: the same failure, or the same
/// number of messages in the same order, each mapped with `f`.
pub open spec fn outcome_mapped_by<T, M, F: Fn(T) -> M>(
    f: F,
    input: Result<Seq<T>, CommandError>,
    out: Result<Seq<M>, CommandError>,
) -> bool {
    match input {
        Ok(ms) => out is Ok && mapped_by(f, ms, out->Ok_0),
        Err(e) => out == Result::<Seq<M>, CommandError>::Err(e),
    }
}

/// The payloads of an outcome.
pub open spec fn outcome_view<T>(o: Outcome<T>) -> Result<Seq<T>, CommandError> {
    match o {
        Ok(ms) => Ok(payloads(ms@)),
        Err(e) => Err(e),
    }
}

/// The messages that a set of finished commands feeds back, in the order given:
/// those of each successful outcome in turn. A failed one feeds back none.
pub open spec fn run_outcomes<T>(outs: Seq<Result<Seq<T>, CommandError>>) -> Seq<T>
    decreases outs.len(),
{
    if outs.len() == 0 {
        Seq::empty()
    } else {
        let first = match outs[0] {
            Ok(ms) => ms,
            Err(_) => Seq::empty(),
        };
        first + run_outcomes(outs.drop_first())
    }
}

/// Relabels a finished command's outcome with `mapper`; a failure passes unchanged.
pub fn map_outcome<T, M, F>(done: Outcome<T>, mapper: &F) -> (r: Outcome<M>)
    where
        F: Fn(T) -> M,
    requires
        forall|t: T| mapper.requires((t,)),
    ensures
        outcome_mapped_by(*mapper, outcome_view(done), outcome_view(r)),
{
    match done {
        Ok(msgs) => Ok(map_all(msgs, mapper)),
        Err(e) => Err(e),
    }
}

/// Passes every item of `items` through `f`, keeping their order.
fn map_each<X, Y, F>(items: Vec<X>, f: &F) -> (r: Vec<Y>)
    where
        F: Fn(X) -> Y,
    requires
        forall|x: X| f.requires((x,)),
    ensures
        each_mapped_by(*f, items@, r@),
{
    let mut out: Vec<Y> = Vec::new();
    let mut rest = items;
    let ghost input = rest@;
    while rest.len() > 0
        invariant
            forall|x: X| f.requires((x,)),
            out.len() + rest.len() == input.len(),
            forall|j: int| 0 <= j < rest.len() ==> #[trigger] rest@[j] == input[out.len() + j],
            forall|j: int| 0 <= j < out.len() ==> f.ensures((input[j],), #[trigger] out@[j]),
        decreases rest.len(),
    {
        let x = rest.remove(0);
        let y = f(x);
        out.push(y);
    }
    out
}

impl<T, C, J> ComponentReturn<T, C, J> {
    /// No messages, no commands, no actions.
    pub fn empty() -> (r: ComponentReturn<T, C, J>)
        ensures
            r.msgs@.len() == 0,
            r.cmds@.len() == 0,
            r.actions@.len() == 0,
    {
        ComponentReturn { msgs: Vec::new(), cmds: Vec::new(), actions: Vec::new() }
    }

    /// A bundle of one command.
    pub fn cmd(cmd: C) -> (r: ComponentReturn<T, C, J>)
        ensures
            r.msgs@.len() == 0,
            r.cmds@ == seq![cmd],
            r.actions@.len() == 0,
    {
        let mut cmds: Vec<C> = Vec::new();
        cmds.push(cmd);
        ComponentReturn { msgs: Vec::new(), cmds, actions: Vec::new() }
    }

    /// A bundle of one action.
    pub fn action(action: Action<J>) -> (r: ComponentReturn<T, C, J>)
        ensures
            r.msgs@.len() == 0,
            r.cmds@.len() == 0,
            r.actions@ == seq![action],
    {
        let mut actions: Vec<Action<J>> = Vec::new();
        actions.push(action);
        ComponentReturn { msgs: Vec::new(), cmds: Vec::new(), actions }
    }

    /// A bundle of one message.
    pub fn message(msg: ComponentMsg<T>) -> (r: ComponentReturn<T, C, J>)
        ensures
            r.msgs@ == seq![msg],
            r.cmds@.len() == 0,
            r.actions@.len() == 0,
    {
        let mut msgs: Vec<ComponentMsg<T>> = Vec::new();
        msgs.push(msg);
        ComponentReturn { msgs, cmds: Vec::new(), actions: Vec::new() }
    }

    /// Lifts the bundle into message type `M`: every message is mapped with
    /// `mapper` now, every command is passed through `lift` (which defers
    /// `mapper` to the moment the command is done, see [`map_outcome`]), and the
    /// actions pass unchanged. Counts and order are kept.
    pub fn map<M, D, F, G>(self, mapper: F, lift: G) -> (r: ComponentReturn<M, D, J>)
        where
            F: Fn(T) -> M,
            G: Fn(C) -> D,
        requires
            forall|t: T| mapper.requires((t,)),
            forall|c: C| lift.requires((c,)),
        ensures
            mapped_by(mapper, payloads(self.msgs@), payloads(r.msgs@)),
            each_mapped_by(lift, self.cmds@, r.cmds@),
            r.actions@ == self.actions@,
    {
        let ComponentReturn { msgs, cmds, actions } = self;
        let msgs = map_all(msgs, &mapper);
        let cmds = map_each(cmds, &lift);
        ComponentReturn { msgs, cmds, actions }
    }
}

} // verus!
