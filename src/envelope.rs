//! The message envelope: one value of a component's message type.
use vstd::prelude::*;

verus! {

/// A message addressed to a component, holding exactly one payload value.
#[derive(Debug)]
pub struct ComponentMsg<T>(pub T);

impl<T> ComponentMsg<T> {
    /// Wraps a payload.
    pub fn new(value: T) -> (r: ComponentMsg<T>)
        ensures
            r.0 == value,
    {
        ComponentMsg(value)
    }

    /// Consumes the envelope and hands back its payload.
    pub fn to_owned(self) -> (r: T)
        ensures
            r == self.0,
    {
        self.0
    }

    /// Relabels the payload with `mapper`, giving an envelope of another message type.
    pub fn map<M, F>(self, mapper: F) -> (r: ComponentMsg<M>)
        where
            F: FnOnce(T) -> M,
        requires
            mapper.requires((self.0,)),
        ensures
            mapper.ensures((self.0,), r.0),
    {
        ComponentMsg(mapper(self.0))
    }
}

impl<T> From<T> for ComponentMsg<T> {
    fn from(value: T) -> (r: ComponentMsg<T>)
        ensures
            r.0 == value,
    {
        ComponentMsg(value)
    }
}

impl<T> vstd::std_specs::convert::FromSpecImpl<T> for ComponentMsg<T> {
    open spec fn obeys_from_spec() -> bool {
        true
    }

    open spec fn from_spec(v: T) -> ComponentMsg<T> {
        ComponentMsg(v)
    }
}

/// The payloads of a sequence of envelopes.
pub open spec fn payloads<T>(msgs: Seq<ComponentMsg<T>>) -> Seq<T> {
    msgs.map_values(|m: ComponentMsg<T>| m.0)
}

/// `out` is `input` with each payload relabeled by `f`, one for one and in order.
pub open spec fn mapped_by<T, M, F: Fn(T) -> M>(f: F, input: Seq<T>, out: Seq<M>) -> bool {
    &&& out.len() == input.len()
    &&& forall|i: int| 0 <= i < input.len() ==> f.ensures((input[i],), #[trigger] out[i])
}

/// Relabels every envelope of `msgs` with `mapper`, keeping their order.
pub fn map_all<T, M, F>(msgs: Vec<ComponentMsg<T>>, mapper: &F) -> (r: Vec<ComponentMsg<M>>)
    where
        F: Fn(T) -> M,
    requires
        forall|t: T| mapper.requires((t,)),
    ensures
        mapped_by(*mapper, payloads(msgs@), payloads(r@)),
{
    let mut out: Vec<ComponentMsg<M>> = Vec::new();
    let mut rest = msgs;
    let ghost input = payloads(rest@);
    while rest.len() > 0
        invariant
            forall|t: T| mapper.requires((t,)),
            out.len() + rest.len() == input.len(),
            forall|j: int| 0 <= j < rest.len() ==> #[trigger] rest@[j].0 == input[out.len() + j],
            forall|j: int| 0 <= j < out.len() ==> mapper.ensures((input[j],), #[trigger] out@[j].0),
        decreases rest.len(),
    {
        let m = rest.remove(0);
        let v = mapper(m.0);
        out.push(ComponentMsg(v));
    }
    out
}

} // verus!
