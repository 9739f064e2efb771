//! The driver's state and the switch that interprets actions against it: the
//! navigation stack, the notification slot with its timer, and the sheet flag.
//! The loop that performs the resulting effects runs outside the library.
use vstd::prelude::*;
use crate::action::{Action, Nav, Notification, NotificationKind, NOTIFICATION_TIMEOUT};
use crate::bundle::{CommandError, Outcome};
use crate::envelope::ComponentMsg;

verus! {

/// What the loop has to do after an action was dispatched.
#[derive(Debug)]
pub enum Effect<J> {
    /// Nothing beyond the new state.
    Nothing,
    /// Leave the loop.
    Exit,
    /// Initialize the component of a screen entered for the first time.
    Initialize(Nav),
    /// Run a background job; what it ends in is dispatched in turn.
    Spawn(J),
}

/// The driver's state as plain values.
pub struct DriverView {
    pub running: bool,
    /// The navigation stack, the active screen last.
    pub nav: Seq<Nav>,
    /// The screens whose component state is kept.
    pub cached: Seq<Nav>,
    pub sheet: bool,
    pub notification: Option<Notification>,
    /// When the shown notification expires, in seconds.
    pub deadline: Option<u64>,
}

/// The state that the driver owns and that components change only through actions.
pub struct Driver {
    running: bool,
    nav: Vec<Nav>,
    cached: Vec<Nav>,
    sheet: bool,
    /// The shown notification and when it expires.
    shown: Option<(Notification, u64)>,
}

impl View for Driver {
    type V = DriverView;

    closed spec fn view(&self) -> DriverView {
        DriverView {
            running: self.running,
            nav: self.nav@,
            cached: self.cached@,
            sheet: self.sheet,
            notification: match self.shown {
                Some((n, _)) => Some(n),
                None => None,
            },
            deadline: match self.shown {
                Some((_, d)) => Some(d),
                None => None,
            },
        }
    }
}

impl DriverView {
    /// Well-formed: a screen is always active, and a timer is armed exactly
    /// while a notification is shown.
    pub open spec fn wf(self) -> bool {
        &&& self.nav.len() >= 1
        &&& (self.notification is Some <==> self.deadline is Some)
    }

    pub open spec fn active(self) -> Nav {
        self.nav.last()
    }
}

/// The state after `action` at time `now`, and the effect to perform.
pub open spec fn dispatch_spec<J>(s: DriverView, action: Action<J>, now: u64) -> (DriverView, Effect<J>) {
    match action {
        Action::Quit => (DriverView { running: false, ..s }, Effect::Exit),
        Action::Esc => if s.nav.len() > 1 {
            (DriverView { nav: s.nav.drop_last(), ..s }, Effect::Nothing)
        } else {
            (DriverView { running: false, ..s }, Effect::Exit)
        },
        Action::NavTo(d) => if s.cached.contains(d) {
            (DriverView { nav: s.nav.push(d), ..s }, Effect::Nothing)
        } else {
            (DriverView { nav: s.nav.push(d), cached: s.cached.push(d), ..s }, Effect::Initialize(d))
        },
        Action::ChangeSheet => (DriverView { sheet: !s.sheet, ..s }, Effect::Nothing),
        Action::Notification(n) => (
            DriverView {
                notification: Some(n),
                deadline: Some(expiry(now, n.spec_timeout())),
                ..s
            },
            Effect::Nothing,
        ),
        Action::ClearNotification => (
            DriverView { notification: None, deadline: None, ..s },
            Effect::Nothing,
        ),
        Action::Spawn(j) => (s, Effect::Spawn(j)),
    }
}

/// When a notification shown at `now` for `timeout` seconds expires; the
/// largest time stands for never.
pub open spec fn expiry(now: u64, timeout: u64) -> u64 {
    if now + timeout > u64::MAX {
        u64::MAX
    } else {
        (now + timeout) as u64
    }
}

impl Driver {
    /// A running driver on the root screen `root`, whose state counts as kept.
    pub fn new(root: Nav) -> (r: Driver)
        ensures
            r@.wf(),
            r@.running,
            r@.nav == seq![root],
            r@.cached == seq![root],
            !r@.sheet,
            r@.notification is None,
    {
        let mut nav: Vec<Nav> = Vec::new();
        nav.push(root);
        let mut cached: Vec<Nav> = Vec::new();
        cached.push(root);
        Driver { running: true, nav, cached, sheet: false, shown: None }
    }

    pub fn is_running(&self) -> (r: bool)
        ensures
            r == self@.running,
    {
        self.running
    }

    /// The active screen.
    pub fn active(&self) -> (r: Nav)
        requires
            self@.wf(),
        ensures
            r == self@.active(),
    {
        self.nav[self.nav.len() - 1]
    }

    /// The depth of the navigation stack.
    pub fn depth(&self) -> (r: usize)
        ensures
            r == self@.nav.len(),
    {
        self.nav.len()
    }

    pub fn sheet(&self) -> (r: bool)
        ensures
            r == self@.sheet,
    {
        self.sheet
    }

    pub fn notification(&self) -> (r: Option<&Notification>)
        ensures
            match r {
                Some(n) => self@.notification == Some(*n),
                None => self@.notification is None,
            },
    {
        match &self.shown {
            Some((n, _)) => Some(n),
            None => None,
        }
    }

    /// When the shown notification expires, if one is shown.
    pub fn deadline(&self) -> (r: Option<u64>)
        ensures
            r == self@.deadline,
    {
        match &self.shown {
            Some((_, d)) => Some(*d),
            None => None,
        }
    }

    fn is_cached(&self, d: Nav) -> (r: bool)
        ensures
            r == self@.cached.contains(d),
    {
        let mut i: usize = 0;
        while i < self.cached.len()
            invariant
                i <= self.cached@.len(),
                forall|j: int| 0 <= j < i ==> self.cached@[j] != d,
            decreases self.cached@.len() - i,
        {
            if self.cached[i] == d {
                return true;
            }
            i = i + 1;
        }
        false
    }

    /// Interprets `action` at time `now` (in seconds).
    pub fn dispatch<J>(&mut self, action: Action<J>, now: u64) -> (r: Effect<J>)
        requires
            old(self)@.wf(),
            old(self)@.nav.len() < usize::MAX,
        ensures
            (final(self)@, r) == dispatch_spec(old(self)@, action, now),
            final(self)@.wf(),
    {
        match action {
            Action::Quit => {
                self.running = false;
                Effect::Exit
            },
            Action::Esc => {
                if self.nav.len() > 1 {
                    self.nav.pop();
                    Effect::Nothing
                } else {
                    self.running = false;
                    Effect::Exit
                }
            },
            Action::NavTo(d) => {
                let kept = self.is_cached(d);
                self.nav.push(d);
                if kept {
                    Effect::Nothing
                } else {
                    self.cached.push(d);
                    Effect::Initialize(d)
                }
            },
            Action::ChangeSheet => {
                self.sheet = !self.sheet;
                Effect::Nothing
            },
            Action::Notification(n) => {
                let deadline = now.saturating_add(n.timeout());
                self.shown = Some((n, deadline));
                Effect::Nothing
            },
            Action::ClearNotification => {
                self.shown = None;
                Effect::Nothing
            },
            Action::Spawn(j) => Effect::Spawn(j),
        }
    }

    /// Lets the clock advance to `now`: a notification whose time is up goes away.
    pub fn tick(&mut self, now: u64)
        requires
            old(self)@.wf(),
        ensures
            final(self)@.wf(),
            match old(self)@.deadline {
                Some(d) if d <= now => final(self)@ == DriverView {
                    notification: None,
                    deadline: None,
                    ..old(self)@
                },
                _ => final(self)@ == old(self)@,
            },
    {
        let expired = match &self.shown {
            Some((_, d)) => *d <= now,
            None => false,
        };
        if expired {
            self.shown = None;
        }
    }

    /// Whether a result that a command of screen `origin` fed back is stale,
    /// because that screen is no longer active; such a result is dropped.
    pub fn is_stale(&self, origin: Nav) -> (r: bool)
        requires
            self@.wf(),
        ensures
            r == (origin != self@.active()),
    {
        self.nav[self.nav.len() - 1] != origin
    }
}

/// `a` shows an error banner with the text `text` and the standard timeout.
pub open spec fn is_error_banner<J>(a: Action<J>, text: Seq<char>) -> bool {
    a matches Action::Notification(n) && n.text() == text && n.spec_kind() == NotificationKind::Error
        && n.spec_timeout() == NOTIFICATION_TIMEOUT
}

/// The action that a failed command or job turns into: an error banner with
/// the failure's text, so that the interface stays responsive.
pub fn failure_action<J>(err: CommandError) -> (r: Action<J>)
    ensures
        is_error_banner(r, err.message@),
{
    Action::Notification(Notification::error(err.message))
}

/// The action to dispatch when a background job is done: the one it ended in,
/// or an error banner if it failed.
pub fn job_done<J>(res: Result<Action<J>, CommandError>) -> (r: Action<J>)
    ensures
        match res {
            Ok(a) => r == a,
            Err(e) => is_error_banner(r, e.message@),
        },
{
    match res {
        Ok(a) => a,
        Err(e) => failure_action(e),
    }
}

/// What a finished command feeds back: its messages, to be delivered in order,
/// or, where it failed, no message and exactly one error banner.
pub fn settle<T, J>(done: Outcome<T>) -> (r: (Vec<ComponentMsg<T>>, Option<Action<J>>))
    ensures
        match done {
            Ok(ms) => r.0@ == ms@ && r.1 is None,
            Err(e) => r.0@.len() == 0 && r.1 is Some && is_error_banner(r.1->Some_0, e.message@),
        },
{
    match done {
        Ok(ms) => (ms, None),
        Err(e) => (Vec::new(), Some(failure_action(e))),
    }
}

} // verus!
