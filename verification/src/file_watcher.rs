//! The lock-contention wait primitive: block until the external tool's lock
//! file disappears from the filesystem.
//!
//! The wait is driven by an [`EventSource`], a subscription delivering
//! filesystem notifications one at a time; the decision of whether a
//! notification ends the wait is the verified [`stops_wait`] /
//! [`lock_wait_decision`] pair. [`FsEventSource`] is the real source, a
//! debounced `notify` watch; [`ScriptedEvents`] replays a synthetic
//! sequence, so the blocking behavior can be exercised deterministically.

use vstd::prelude::*;

verus! {

/// The debounce window of the filesystem watch, in seconds: rapid-fire
/// events are coalesced into one notification no more often than this.
pub const DEBOUNCE_SECS: u64 = 10;

/// One filesystem notification, as the wait loop sees it.
pub enum Notification {
    /// A removal notice for the file at `path`.
    Removed { path: String },
    /// Any other kind of change notice.
    Other,
    /// The notification channel closed or failed; nothing more will come.
    Closed,
}

/// The mathematical value of a [`Notification`].
pub enum NotificationView {
    Removed { path: Seq<char> },
    Other,
    Closed,
}

impl View for Notification {
    type V = NotificationView;

    open spec fn view(&self) -> NotificationView {
        match self {
            Notification::Removed { path } => NotificationView::Removed { path: path@ },
            Notification::Other => NotificationView::Other,
            Notification::Closed => NotificationView::Closed,
        }
    }
}

/// Whether a notification ends the wait on `watched`: a removal notice for
/// exactly the watched path does, and so does a closed channel (nothing
/// further can be observed, so the wait proceeds optimistically); removal
/// notices for other paths and all other notification kinds keep the wait
/// going.
pub open spec fn stops_wait(watched: Seq<char>, n: NotificationView) -> bool {
    match n {
        NotificationView::Removed { path } => path == watched,
        NotificationView::Other => false,
        NotificationView::Closed => true,
    }
}

/// Decides whether `n` ends the wait on `watched`.
pub fn lock_wait_decision(watched: &String, n: &Notification) -> (stop: bool)
    ensures
        stop == stops_wait(watched@, n@),
{
    match n {
        Notification::Removed { path } => watched.eq(path),
        Notification::Other => false,
        Notification::Closed => true,
    }
}

/// A subscription delivering filesystem notifications one at a time.
///
/// `delivered()` is the ghost record of every notification handed out so
/// far; `next` appends exactly the notification it returned.
pub trait EventSource: Sized {
    /// Every notification handed out so far, oldest first.
    spec fn delivered(&self) -> Seq<NotificationView>;

    /// Blocks for the next notification.
    fn next(&mut self) -> (n: Notification)
        ensures
            final(self).delivered() == old(self).delivered().push(n@),
    ;
}

/// An [`EventSource`] that replays a fixed sequence of notifications; an
/// exhausted script delivers [`Notification::Closed`].
pub struct ScriptedEvents {
    /// The notifications not yet delivered, next first.
    pub script: Vec<Notification>,
    /// The ghost record backing [`EventSource::delivered`].
    pub log: Ghost<Seq<NotificationView>>,
}

impl ScriptedEvents {
    /// A fresh source that will deliver the entries of `script`, in order.
    pub fn new(script: Vec<Notification>) -> (s: ScriptedEvents)
        ensures
            s.delivered() == Seq::<NotificationView>::empty(),
            s.script@ == script@,
    {
        ScriptedEvents { script, log: Ghost(Seq::empty()) }
    }

    /// How many scripted notifications have not been delivered yet.
    pub fn remaining(&self) -> (n: usize)
        ensures
            n == self.script@.len(),
    {
        self.script.len()
    }
}

impl EventSource for ScriptedEvents {
    open spec fn delivered(&self) -> Seq<NotificationView> {
        self.log@
    }

    fn next(&mut self) -> (n: Notification)
        ensures
            old(self).script@.len() > 0 ==> (final(self).script@ == old(self).script@.skip(1)
                && n == old(self).script@[0]),
            old(self).script@.len() == 0 ==> (final(self).script@ == old(self).script@
                && n == Notification::Closed),
    {
        let n = if self.script.len() > 0 {
            self.script.remove(0)
        } else {
            Notification::Closed
        };
        self.log = Ghost(self.log@.push(n@));
        proof {
            if old(self).script@.len() > 0 {
                assert(self.script@ =~= old(self).script@.skip(1));
            }
        }
        n
    }
}

/// The platform-appropriate `notify` watcher, opaque to the verifier.
#[verifier::external_type_specification]
#[verifier::external_body]
pub struct ExRecommendedWatcher(notify::RecommendedWatcher);

/// A debounced `notify` event, opaque to the verifier; [`next_event`]
/// classifies it into a [`Notification`].
#[verifier::external_type_specification]
#[verifier::external_body]
pub struct ExDebouncedEvent(notify::DebouncedEvent);

/// The sending half of a channel, opaque to the verifier.
#[verifier::external_type_specification]
#[verifier::external_body]
#[verifier::reject_recursive_types(T)]
pub struct ExSender<T>(std::sync::mpsc::Sender<T>);

/// The receiving half of a channel, opaque to the verifier.
#[verifier::external_type_specification]
#[verifier::external_body]
#[verifier::reject_recursive_types(T)]
pub struct ExReceiver<T>(std::sync::mpsc::Receiver<T>);

/// Relies on `std::sync::mpsc::channel` to create a connected
/// sender/receiver pair for the watcher's events.
#[verifier::external_body]
fn event_channel() -> (
    std::sync::mpsc::Sender<notify::DebouncedEvent>,
    std::sync::mpsc::Receiver<notify::DebouncedEvent>,
) {
    std::sync::mpsc::channel()
}

/// Relies on `notify::watcher`: builds a platform-appropriate watcher that
/// delivers events to `tx`, debounced over the given window, or fails.
#[verifier::external_body]
fn make_watcher(
    tx: std::sync::mpsc::Sender<notify::DebouncedEvent>,
    debounce_secs: u64,
) -> Option<notify::RecommendedWatcher> {
    match notify::watcher(tx, std::time::Duration::from_secs(debounce_secs)) {
        Ok(w) => Some(w),
        Err(_) => None,
    }
}

/// Relies on `notify::Watcher::watch` with `RecursiveMode::Recursive`:
/// begins watching `path` and everything below it, reporting whether the
/// watch could be established.
#[verifier::external_body]
fn watch_path(w: &mut notify::RecommendedWatcher, path: &String) -> bool {
    notify::Watcher::watch(
        w,
        std::path::Path::new(path.as_str()),
        notify::RecursiveMode::Recursive,
    ).is_ok()
}

/// Relies on `std::sync::mpsc::Receiver::recv`: blocks for the next
/// debounced event; a removal notice is handed out with its path, any other
/// event kind as `Other`, and a closed channel as `Closed`.
#[verifier::external_body]
fn next_event(rx: &std::sync::mpsc::Receiver<notify::DebouncedEvent>) -> Notification {
    match rx.recv() {
        Ok(notify::DebouncedEvent::NoticeRemove(p)) => Notification::Removed {
            path: p.to_string_lossy().into_owned(),
        },
        Ok(_) => Notification::Other,
        Err(_) => Notification::Closed,
    }
}

/// Relies on `std::path::Path::exists`; the answer depends on the state of
/// the filesystem at the moment of the call.
#[verifier::external_body]
pub(crate) fn path_exists(path: &String) -> bool {
    std::path::Path::new(path.as_str()).exists()
}

/// The real [`EventSource`]: a debounced filesystem watch.
pub struct FsEventSource {
    rx: std::sync::mpsc::Receiver<notify::DebouncedEvent>,
    watcher: notify::RecommendedWatcher,
    log: Ghost<Seq<NotificationView>>,
}

impl FsEventSource {
    /// Establishes a debounced watch on `path` and everything below it;
    /// `None` when the watch cannot be established.
    pub fn subscribe(path: &String, debounce_secs: u64) -> (r: Option<FsEventSource>)
        ensures
            r matches Some(s) ==> s.delivered() == Seq::<NotificationView>::empty(),
    {
        let (tx, rx) = event_channel();
        match make_watcher(tx, debounce_secs) {
            Some(mut w) => {
                if watch_path(&mut w, path) {
                    Some(FsEventSource { rx, watcher: w, log: Ghost(Seq::empty()) })
                } else {
                    None
                }
            },
            None => None,
        }
    }
}

impl EventSource for FsEventSource {
    closed spec fn delivered(&self) -> Seq<NotificationView> {
        self.log@
    }

    fn next(&mut self) -> (n: Notification) {
        let n = next_event(&self.rx);
        self.log = Ghost(self.log@.push(n@));
        n
    }
}

/// Blocks until the source delivers a notification that ends the wait: a
/// removal notice for exactly the watched path, or a closed channel. The
/// call returns only when such a stopping notification was just delivered,
/// or when the inspection budget `max_events` is spent — the budget is a
/// safety valve that callers make practically inexhaustible, and it is the
/// only way the call can end without a stopping notification. Every
/// notification delivered before the last one kept the wait going.
pub fn wait_for_removal<S: EventSource>(source: &mut S, watched: &String, max_events: u64)
    ensures
        old(source).delivered().len() <= final(source).delivered().len(),
        final(source).delivered().len() <= old(source).delivered().len() + max_events,
        final(source).delivered().take(old(source).delivered().len() as int) == old(
            source,
        ).delivered(),
        forall|i: int|
            old(source).delivered().len() <= i < final(source).delivered().len() - 1
                ==> !stops_wait(watched@, #[trigger] final(source).delivered()[i]),
        (old(source).delivered().len() < final(source).delivered().len()
            && final(source).delivered().len() < old(source).delivered().len() + max_events)
            ==> stops_wait(watched@, final(source).delivered().last()),
        final(source).delivered().len() == old(source).delivered().len() + max_events
            || (final(source).delivered().len() > old(source).delivered().len()
                && stops_wait(watched@, final(source).delivered().last())),
{
    let ghost d0 = source.delivered();
    let mut fuel: u64 = max_events;
    loop
        invariant
            d0 == old(source).delivered(),
            fuel <= max_events,
            source.delivered().len() == d0.len() + (max_events - fuel),
            source.delivered().take(d0.len() as int) == d0,
            forall|i: int|
                d0.len() <= i < source.delivered().len() ==> !stops_wait(
                    watched@,
                    #[trigger] source.delivered()[i],
                ),
        decreases fuel,
    {
        if fuel == 0 {
            return;
        }
        fuel = fuel - 1;
        let n = source.next();
        proof {
            assert(source.delivered().take(d0.len() as int) =~= d0);
        }
        if lock_wait_decision(watched, &n) {
            proof {
                assert(source.delivered().last() == n@);
            }
            return;
        }
    }
}

/// What a completed wait reports: `None` when no watch could be
/// established, so the call returned at once and consumed nothing; `Some`
/// with the consumed notifications otherwise — at most the inspection
/// budget many, every one but the last kept the wait going, and the wait
/// ended either on the spent budget or on a notification that stops it (a
/// removal notice for exactly the watched path, or a closed channel).
pub open spec fn wait_outcome_ok(watched: Seq<char>, outcome: Option<Seq<NotificationView>>) -> bool {
    match outcome {
        Option::None => true,
        Option::Some(d) => {
            &&& d.len() <= u64::MAX
            &&& (forall|i: int| 0 <= i < d.len() - 1 ==> !stops_wait(watched, #[trigger] d[i]))
            &&& (d.len() == u64::MAX || (d.len() > 0 && stops_wait(watched, d.last())))
        },
    }
}

/// Blocks until the lock file at `path` disappears: establishes a debounced
/// watch and waits for a removal notice for exactly `path`. Returns at once
/// when the watch cannot be established, and whenever the notification
/// channel closes or fails — every failure path resolves to "return now".
/// The ghost report says which happened, as [`wait_outcome_ok`] describes.
pub fn wait_until_deleted(path: &String) -> (r: Ghost<Option<Seq<NotificationView>>>)
    ensures
        wait_outcome_ok(path@, r@),
{
    match FsEventSource::subscribe(path, DEBOUNCE_SECS) {
        Some(mut source) => {
            wait_for_removal(&mut source, path, u64::MAX);
            Ghost(Some(source.delivered()))
        },
        None => Ghost(None),
    }
}

} // verus!
