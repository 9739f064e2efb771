//! The component contract, raw input events, and the helpers through which a
//! parent drives an embedded child.
use vstd::prelude::*;
use crate::action::Action;
use crate::bundle::{ComponentReturn, each_mapped_by};
use crate::envelope::{ComponentMsg, map_all, mapped_by, payloads};

verus! {

/// A failure inside a component's own logic.
#[derive(Clone, Debug)]
pub struct ComponentError {
    pub message: String,
}

/// A key on the keyboard.
#[derive(PartialEq, Eq, Structural, Clone, Copy, Debug)]
pub enum KeyCode {
    Char(char),
    Enter,
    Esc,
    Backspace,
    Tab,
    Up,
    Down,
    Left,
    Right,
    Home,
    End,
    PageUp,
    PageDown,
    Delete,
    F(u8),
    Other,
}

/// A key press, with the modifier keys held (shift 1, control 2, alt 4).
#[derive(PartialEq, Eq, Structural, Clone, Copy, Debug)]
pub struct KeyPress {
    pub code: KeyCode,
    pub modifiers: u8,
}

/// A raw input event handed to a component.
#[derive(Clone, Debug)]
pub enum ComponentEvent {
    Key(KeyPress),
    Resize(u16, u16),
    Paste(String),
    FocusGained,
    FocusLost,
    Mouse,
}

/// A unit of the user interface: private state that reacts to its activation,
/// to messages addressed to it and to raw input events. Rendering is left to the
/// drawing layer.
pub trait Component: Sized {
    type Msg;
    type Props;
    /// The deferred commands that its bundles carry.
    type Cmd;
    /// The background jobs that its actions carry.
    type Job;

    /// What `init` does: from this state, with `props`, to the state `after`,
    /// returning `r`. A component that states nothing promises nothing.
    open spec fn initializes(
        &self,
        props: Self::Props,
        after: Self,
        r: Result<ComponentReturn<Self::Msg, Self::Cmd, Self::Job>, ComponentError>,
    ) -> bool {
        true
    }

    /// What `update` does: from this state, on `message`, to the state `after`,
    /// returning `r`. A component that states nothing promises nothing.
    open spec fn updates(
        &self,
        message: ComponentMsg<Self::Msg>,
        after: Self,
        r: Result<ComponentReturn<Self::Msg, Self::Cmd, Self::Job>, ComponentError>,
    ) -> bool {
        true
    }

    /// What `handle_event` does: from this state, on `evt`, to the state
    /// `after`, returning `r`. A component that states nothing promises nothing.
    open spec fn handles(
        &self,
        evt: ComponentEvent,
        after: Self,
        r: Result<Vec<ComponentMsg<Self::Msg>>, ComponentError>,
    ) -> bool {
        true
    }

    /// Called once when the component becomes active.
    fn init(&mut self, props: Self::Props) -> (r: Result<ComponentReturn<Self::Msg, Self::Cmd, Self::Job>, ComponentError>)
        ensures
            old(self).initializes(props, *final(self), r),
    ;

    /// Called once for each message delivered to the component.
    fn update(&mut self, message: ComponentMsg<Self::Msg>) -> (r: Result<ComponentReturn<Self::Msg, Self::Cmd, Self::Job>, ComponentError>)
        ensures
            old(self).updates(message, *final(self), r),
    ;

    /// Translates a raw input event into messages to itself, without blocking.
    fn handle_event(&mut self, evt: ComponentEvent) -> (r: Result<Vec<ComponentMsg<Self::Msg>>, ComponentError>)
        ensures
            old(self).handles(evt, *final(self), r),
    ;
}

/// Something that reacts to actions by producing messages for itself.
pub trait ActionHandler {
    type Msg;
    type Job;

    fn handle_action(&mut self, action: Action<Self::Job>) -> Result<Vec<ComponentMsg<Self::Msg>>, ComponentError>;
}

/// `out` is `input` lifted by `mapper` and `lift` as [`ComponentReturn::map`] does.
pub open spec fn lifted_by<T, C, J, M, D, F: Fn(T) -> M, G: Fn(C) -> D>(
    mapper: F,
    lift: G,
    input: ComponentReturn<T, C, J>,
    out: ComponentReturn<M, D, J>,
) -> bool {
    &&& mapped_by(mapper, payloads(input.msgs@), payloads(out.msgs@))
    &&& each_mapped_by(lift, input.cmds@, out.cmds@)
    &&& out.actions@ == input.actions@
}

/// Lifts what a child operation returned into the parent's types; a failure
/// passes unchanged.
pub fn lift_result<T, C, J, M, D, F, G>(
    res: Result<ComponentReturn<T, C, J>, ComponentError>,
    mapper: F,
    lift: G,
) -> (r: Result<ComponentReturn<M, D, J>, ComponentError>)
    where
        F: Fn(T) -> M,
        G: Fn(C) -> D,
    requires
        forall|t: T| mapper.requires((t,)),
        forall|c: C| lift.requires((c,)),
    ensures
        match res {
            Ok(b) => r is Ok && lifted_by(mapper, lift, b, r->Ok_0),
            Err(e) => r == Result::<ComponentReturn<M, D, J>, ComponentError>::Err(e),
        },
{
    match res {
        Ok(b) => Ok(b.map(mapper, lift)),
        Err(e) => Err(e),
    }
}

/// Lifts the messages that a child produced for an event; a failure passes unchanged.
pub fn lift_event_result<T, M, F>(
    res: Result<Vec<ComponentMsg<T>>, ComponentError>,
    mapper: F,
) -> (r: Result<Vec<ComponentMsg<M>>, ComponentError>)
    where
        F: Fn(T) -> M,
    requires
        forall|t: T| mapper.requires((t,)),
    ensures
        match res {
            Ok(ms) => r is Ok && mapped_by(mapper, payloads(ms@), payloads(r->Ok_0@)),
            Err(e) => r == Result::<Vec<ComponentMsg<M>>, ComponentError>::Err(e),
        },
{
    match res {
        Ok(ms) => Ok(map_all(ms, &mapper)),
        Err(e) => Err(e),
    }
}

/// Activates an embedded child and lifts its bundle into the parent's types: a
/// failure of the child is handed on, a bundle is lifted. The child is the only
/// state it touches.
pub fn forward_init<C, M, D, F, G>(
    other: &mut C,
    props: C::Props,
    mapper: F,
    lift: G,
) -> (r: Result<ComponentReturn<M, D, C::Job>, ComponentError>)
    where
        C: Component,
        F: Fn(C::Msg) -> M,
        G: Fn(C::Cmd) -> D,
    requires
        forall|t: C::Msg| mapper.requires((t,)),
        forall|c: C::Cmd| lift.requires((c,)),
    ensures
        match r {
            Ok(pb) => exists|b: ComponentReturn<C::Msg, C::Cmd, C::Job>|
                #[trigger] lifted_by(mapper, lift, b, pb) && old(other).initializes(
                    props,
                    *final(other),
                    Ok(b),
                ),
            Err(e) => old(other).initializes(props, *final(other), Err(e)),
        },
{
    let res = other.init(props);
    lift_result(res, mapper, lift)
}

/// Delivers a message to an embedded child and lifts its bundle into the
/// parent's types: a failure of the child is handed on, a bundle is lifted. The
/// child is the only state it touches.
pub fn forward_update<C, M, D, F, G>(
    other: &mut C,
    msg: ComponentMsg<C::Msg>,
    mapper: F,
    lift: G,
) -> (r: Result<ComponentReturn<M, D, C::Job>, ComponentError>)
    where
        C: Component,
        F: Fn(C::Msg) -> M,
        G: Fn(C::Cmd) -> D,
    requires
        forall|t: C::Msg| mapper.requires((t,)),
        forall|c: C::Cmd| lift.requires((c,)),
    ensures
        match r {
            Ok(pb) => exists|b: ComponentReturn<C::Msg, C::Cmd, C::Job>|
                #[trigger] lifted_by(mapper, lift, b, pb) && old(other).updates(
                    msg,
                    *final(other),
                    Ok(b),
                ),
            Err(e) => old(other).updates(msg, *final(other), Err(e)),
        },
{
    let res = other.update(msg);
    lift_result(res, mapper, lift)
}

/// Hands a raw input event to an embedded child and lifts the messages it
/// produced: a failure of the child is handed on. The child is the only state
/// it touches.
pub fn forward_event<C, M, F>(
    other: &mut C,
    evt: ComponentEvent,
    mapper: F,
) -> (r: Result<Vec<ComponentMsg<M>>, ComponentError>)
    where
        C: Component,
        F: Fn(C::Msg) -> M,
    requires
        forall|t: C::Msg| mapper.requires((t,)),
    ensures
        match r {
            Ok(pms) => exists|ms: Vec<ComponentMsg<C::Msg>>|
                #[trigger] mapped_by(mapper, payloads(ms@), payloads(pms@)) && old(other).handles(
                    evt,
                    *final(other),
                    Ok(ms),
                ),
            Err(e) => old(other).handles(evt, *final(other), Err(e)),
        },
{
    let res = other.handle_event(evt);
    lift_event_result(res, mapper)
}

/// `states` is a run of `update` over `msgs` from `states[0]`: the i-th message
/// takes `states[i]` to `states[i + 1]` and returns `outs[i]`.
pub open spec fn update_run<C: Component>(
    states: Seq<C>,
    msgs: Seq<ComponentMsg<C::Msg>>,
    outs: Seq<ComponentReturn<C::Msg, C::Cmd, C::Job>>,
) -> bool {
    &&& states.len() == msgs.len() + 1
    &&& outs.len() == msgs.len()
    &&& forall|i: int| 0 <= i < msgs.len() ==> #[trigger] states[i].updates(msgs[i], states[i + 1], Ok(outs[i]))
}

/// Delivers `msgs` to `component` one at a time, in order, calling `update` once
/// for each, and collects the bundles it returns. At the first failure it
/// stops: the later messages are not delivered, and the failure is handed on.
pub fn deliver<C: Component>(
    component: &mut C,
    msgs: Vec<ComponentMsg<C::Msg>>,
) -> (r: Result<Vec<ComponentReturn<C::Msg, C::Cmd, C::Job>>, ComponentError>)
    ensures
        r is Ok ==> exists|states: Seq<C>|
            #[trigger] update_run(states, msgs@, r->Ok_0@) && states[0] == *old(component)
                && states.last() == *final(component),
        r is Err ==> exists|k: int, states: Seq<C>, outs: Seq<ComponentReturn<C::Msg, C::Cmd, C::Job>>|
            0 <= k < msgs@.len() && #[trigger] update_run(states, msgs@.take(k), outs)
                && states[0] == *old(component) && states.last().updates(
                msgs@[k],
                *final(component),
                Err(r->Err_0),
            ),
{
    let ghost all = msgs@;
    let ghost mut states: Seq<C> = seq![*component];
    let mut out: Vec<ComponentReturn<C::Msg, C::Cmd, C::Job>> = Vec::new();
    let mut rest = msgs;
    let n: usize = rest.len();
    let mut i: usize = 0;
    while rest.len() > 0
        invariant
            all == msgs@,
            n == all.len(),
            i + rest@.len() == all.len(),
            rest@ == all.skip(i as int),
            update_run(states, all.take(i as int), out@),
            states[0] == *old(component),
            states.last() == *component,
        decreases rest.len(),
    {
        let ghost before = *component;
        let m = rest.remove(0);
        assert(m == all[i as int]);
        match component.update(m) {
            Ok(b) => {
                proof {
                    let next = states.push(*component);
                    let outs_next = out@.push(b);
                    assert(all.take(i + 1) =~= all.take(i as int).push(all[i as int]));
                    assert forall|j: int| 0 <= j < all.take(i + 1).len() implies #[trigger] next[j].updates(
                        all.take(i + 1)[j],
                        next[j + 1],
                        Ok(outs_next[j]),
                    ) by {
                        if j < i {
                            assert(states[j].updates(all.take(i as int)[j], states[j + 1], Ok(out@[j])));
                        }
                    }
                    states = next;
                }
                out.push(b);
                proof {
                    assert(rest@ =~= all.skip(i + 1));
                }
                i = i + 1;
            },
            Err(e) => {
                proof {
                    assert(before.updates(all[i as int], *component, Err(e)));
                    assert(update_run(states, msgs@.take(i as int), out@));
                }
                return Err(e);
            },
        }
    }
    proof {
        assert(all.take(i as int) =~= all);
        assert(update_run(states, msgs@, out@));
        assert(states[0] == *old(component));
        assert(states.last() == *component);
    }
    let r: Result<Vec<ComponentReturn<C::Msg, C::Cmd, C::Job>>, ComponentError> = Ok(out);
    proof {
        assert(update_run(states, msgs@, r->Ok_0@));
        assert(exists|st: Seq<C>|
            #[trigger] update_run(st, msgs@, r->Ok_0@) && st[0] == *old(component) && st.last() == *component);
    }
    r
}

} // verus!
