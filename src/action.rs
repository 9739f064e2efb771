//! Actions: effects that travel past the component that raised them, and the
//! notifications some of them carry.
use vstd::prelude::*;

verus! {

/// How long, in seconds, a notification stays up unless cleared first.
pub const NOTIFICATION_TIMEOUT: u64 = 5;

/// Whether a notification reports a failure or plain information.
#[derive(PartialEq, Eq, Structural, Clone, Copy, Debug)]
pub enum NotificationKind {
    Error,
    Info,
}

/// A transient status banner: its text, its kind and its timeout in seconds.
#[derive(Clone, Debug)]
pub struct Notification {
    msg: String,
    kind: NotificationKind,
    timeout: u64,
}

/// A request to the notification slot: show a banner, or clear it.
#[derive(Clone, Debug)]
pub enum NotificationMsg {
    Show(Notification),
    Clear,
}

impl Notification {
    pub closed spec fn text(&self) -> Seq<char> {
        self.msg@
    }

    pub closed spec fn spec_kind(&self) -> NotificationKind {
        self.kind
    }

    pub closed spec fn spec_timeout(&self) -> u64 {
        self.timeout
    }

    /// An error banner with the standard timeout.
    pub fn error(msg: String) -> (r: Notification)
        ensures
            r.text() == msg@,
            r.spec_kind() == NotificationKind::Error,
            r.spec_timeout() == NOTIFICATION_TIMEOUT,
    {
        Notification { msg, kind: NotificationKind::Error, timeout: NOTIFICATION_TIMEOUT }
    }

    /// An information banner with the standard timeout.
    pub fn info(msg: String) -> (r: Notification)
        ensures
            r.text() == msg@,
            r.spec_kind() == NotificationKind::Info,
            r.spec_timeout() == NOTIFICATION_TIMEOUT,
    {
        Notification { msg, kind: NotificationKind::Info, timeout: NOTIFICATION_TIMEOUT }
    }

    pub fn msg(&self) -> (r: &str)
        ensures
            r@ == self.text(),
    {
        self.msg.as_str()
    }

    pub fn kind(&self) -> (r: &NotificationKind)
        ensures
            *r == self.spec_kind(),
    {
        &self.kind
    }

    pub fn timeout(&self) -> (r: u64)
        ensures
            r == self.spec_timeout(),
    {
        self.timeout
    }
}

/// A screen that navigation can lead to, named by its number.
#[derive(PartialEq, Eq, Structural, Clone, Copy, Debug)]
pub struct Nav(pub u64);

/// An effect that the driver interprets rather than the component that raised it.
/// `J` is the type of a background job: outside work that ends in a further action.
#[derive(Debug)]
pub enum Action<J> {
    Quit,
    Esc,
    NavTo(Nav),
    ChangeSheet,
    Notification(Notification),
    ClearNotification,
    Spawn(J),
}

impl<J> Action<J> {
    /// Schedules `job` in the background; what it ends in is dispatched in turn.
    pub fn spawn(job: J) -> (r: Action<J>)
        ensures
            r == Action::Spawn(job),
    {
        Action::Spawn(job)
    }
}

} // verus!
