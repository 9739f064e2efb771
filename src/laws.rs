//! Laws of the effect bundle: lifting a bundle commutes with running its
//! commands, and lifting by the identity changes nothing. Laws of the driver:
//! going forward and back restores the navigation stack, and clearing a
//! notification leaves neither banner nor timer.
use vstd::prelude::*;
use crate::action::{Action, Nav, Notification};
use crate::bundle::{CommandError, outcome_mapped_by, run_outcomes};
use crate::driver::{DriverView, dispatch_spec};
use crate::envelope::mapped_by;

verus! {

/// Relabeling two sequences one after the other relabels their concatenation.
proof fn lemma_mapped_by_concat<T, M, F: Fn(T) -> M>(
    f: F,
    a: Seq<T>,
    fa: Seq<M>,
    b: Seq<T>,
    fb: Seq<M>,
)
    requires
        mapped_by(f, a, fa),
        mapped_by(f, b, fb),
    ensures
        mapped_by(f, a + b, fa + fb),
{
    assert forall|i: int| 0 <= i < (a + b).len() implies f.ensures(((a + b)[i],), #[trigger] (fa + fb)[i]) by {
        if i < a.len() {
            assert((a + b)[i] == a[i]);
            assert((fa + fb)[i] == fa[i]);
        } else {
            assert((a + b)[i] == b[i - a.len()]);
            assert((fa + fb)[i] == fb[i - a.len()]);
        }
    }
}

/// Running the commands of a lifted bundle feeds back exactly the messages that
/// running the bundle's own commands feeds back, each mapped with `f`, in the same
/// order; the same holds with the bundle's immediate messages put in front.
/// (`outs` are what those commands handed back, `lifted` what the lifted
/// ones handed back for the same outside results.)
pub proof fn lemma_map_run_commute<T, M, F: Fn(T) -> M>(
    f: F,
    msgs: Seq<T>,
    lifted_msgs: Seq<M>,
    outs: Seq<Result<Seq<T>, CommandError>>,
    lifted: Seq<Result<Seq<M>, CommandError>>,
)
    requires
        mapped_by(f, msgs, lifted_msgs),
        lifted.len() == outs.len(),
        forall|i: int| 0 <= i < outs.len() ==> outcome_mapped_by(f, #[trigger] outs[i], lifted[i]),
    ensures
        mapped_by(f, run_outcomes(outs), run_outcomes(lifted)),
        mapped_by(f, msgs + run_outcomes(outs), lifted_msgs + run_outcomes(lifted)),
    decreases outs.len(),
{
    if outs.len() == 0 {
        assert(run_outcomes(outs) =~= Seq::<T>::empty());
        assert(run_outcomes(lifted) =~= Seq::<M>::empty());
        assert(msgs + run_outcomes(outs) =~= msgs);
        assert(lifted_msgs + run_outcomes(lifted) =~= lifted_msgs);
    } else {
        assert(outcome_mapped_by(f, outs[0], lifted[0]));
        let first = match outs[0] {
            Ok(ms) => ms,
            Err(_) => Seq::<T>::empty(),
        };
        let lifted_first = match lifted[0] {
            Ok(ms) => ms,
            Err(_) => Seq::<M>::empty(),
        };
        assert(mapped_by(f, first, lifted_first));
        assert forall|i: int| 0 <= i < outs.drop_first().len() implies outcome_mapped_by(
            f,
            #[trigger] outs.drop_first()[i],
            lifted.drop_first()[i],
        ) by {
            assert(outs.drop_first()[i] == outs[i + 1]);
            assert(lifted.drop_first()[i] == lifted[i + 1]);
        }
        lemma_map_run_commute(f, first, lifted_first, outs.drop_first(), lifted.drop_first());
        lemma_mapped_by_concat(f, msgs, lifted_msgs, run_outcomes(outs), run_outcomes(lifted));
    }
}

/// Relabeling with a mapper that hands back its argument leaves a sequence as it
/// was, and an outcome too.
pub proof fn lemma_map_identity<T, F: Fn(T) -> T>(
    f: F,
    msgs: Seq<T>,
    lifted_msgs: Seq<T>,
    out: Result<Seq<T>, CommandError>,
    lifted: Result<Seq<T>, CommandError>,
)
    requires
        forall|t: T, u: T| f.ensures((t,), u) ==> u == t,
        mapped_by(f, msgs, lifted_msgs),
        outcome_mapped_by(f, out, lifted),
    ensures
        lifted_msgs == msgs,
        lifted == out,
{
    assert(lifted_msgs =~= msgs);
    match out {
        Ok(ms) => {
            let lm = lifted->Ok_0;
            assert(lm =~= ms);
        },
        Err(_) => {},
    }
}

/// Navigating to `d` and then going back restores the navigation stack and
/// initializes nothing on the way back; `d` is initialized on the way in only
/// if its state was not kept, and is kept afterwards.
pub proof fn lemma_navigate_then_back<J>(s: DriverView, d: Nav, now: u64, later: u64)
    requires
        s.wf(),
    ensures
        ({
            let (s1, e1) = dispatch_spec::<J>(s, Action::NavTo(d), now);
            let (s2, e2) = dispatch_spec::<J>(s1, Action::Esc, later);
            &&& s2.nav == s.nav
            &&& s2.running == s.running
            &&& s2.notification == s.notification
            &&& e2 is Nothing
            &&& (e1 is Nothing <==> s.cached.contains(d))
            &&& s2.cached.contains(d)
        }),
{
    let (s1, e1) = dispatch_spec::<J>(s, Action::NavTo(d), now);
    assert(s1.nav.drop_last() =~= s.nav);
    if !s.cached.contains(d) {
        assert(s1.cached.last() == d);
    }
}

/// Showing a notification and clearing it before it expires leaves no banner
/// and no pending timer, and changes nothing else.
pub proof fn lemma_show_then_clear<J>(s: DriverView, n: Notification, now: u64, later: u64)
    ensures
        ({
            let (s1, _) = dispatch_spec::<J>(s, Action::Notification(n), now);
            let (s2, e2) = dispatch_spec::<J>(s1, Action::ClearNotification, later);
            &&& s2.notification is None
            &&& s2.deadline is None
            &&& s2.nav == s.nav
            &&& s2.running == s.running
            &&& s2.sheet == s.sheet
            &&& e2 is Nothing
        }),
{
}

} // verus!
