//! The watcher: which paths it observes, and to whom it hands each event.
//!
//! The operating system's notifications, the quiet period that coalesces
//! them and the listeners' own work are outside work. The watcher decides
//! what is asked next: to create the watch, to register a path, to wait
//! for an event, to hand an event to a listener.

pub mod pool;

use crate::event::{FileSystemEvent, FileSystemEventView};
use crate::watcher::pool::{Matches, Pool, distinct, found};
use vstd::prelude::*;
use vstd::string::StringExecFns;

verus! {

/// Seconds of quiet after the last raw change of a path before the
/// coalesced event is handed out, unless the watcher is told otherwise.
pub const DEFAULT_DEBOUNCE_SECS: u64 = 2;

/// Why the watcher gave up.
#[derive(Debug, Clone, PartialEq, Eq)]
pub enum WatchError {
    /// The watch could not be created.
    CreateFailed(String),
    /// A path of the pool could not be registered.
    RegisterFailed { path: String, cause: String },
    /// The watcher was handed something that it had not asked for.
    OutOfTurn,
}

pub enum WatchErrorView {
    CreateFailed(Seq<char>),
    RegisterFailed { path: Seq<char>, cause: Seq<char> },
    OutOfTurn,
}

impl View for WatchError {
    type V = WatchErrorView;

    open spec fn view(&self) -> WatchErrorView {
        match self {
            WatchError::CreateFailed(cause) => WatchErrorView::CreateFailed(cause@),
            WatchError::RegisterFailed { path, cause } => WatchErrorView::RegisterFailed {
                path: path@,
                cause: cause@,
            },
            WatchError::OutOfTurn => WatchErrorView::OutOfTurn,
        }
    }
}

impl WatchErrorView {
    /// The error in words, for the operator.
    pub open spec fn message(self) -> Seq<char> {
        match self {
            WatchErrorView::CreateFailed(cause) => "failed to create watcher with error="@ + cause,
            WatchErrorView::RegisterFailed { path, cause } => "failed to watch path="@ + path
                + ", reason="@ + cause,
            WatchErrorView::OutOfTurn => "the watcher was used out of turn"@,
        }
    }
}

impl WatchError {
    /// The error in words, for the operator.
    pub fn message(&self) -> (r: String)
        ensures
            r@ == self@.message(),
    {
        match self {
            WatchError::CreateFailed(cause) => {
                let mut text = String::from_str("failed to create watcher with error=");
                text.append(cause.as_str());
                text
            },
            WatchError::RegisterFailed { path, cause } => {
                let mut text = String::from_str("failed to watch path=");
                text.append(path.as_str());
                text.append(", reason=");
                text.append(cause.as_str());
                text
            },
            WatchError::OutOfTurn => String::from_str("the watcher was used out of turn"),
        }
    }
}

/// Where the watcher stands: what it waits for.
#[derive(Debug, Clone, PartialEq, Eq)]
pub enum WatchState {
    /// Not started.
    Configured,
    /// The watch to be created.
    Creating,
    /// The path at this place in the pool to be registered.
    Registering(usize),
    /// The next event.
    Waiting,
    /// The listener at place `listener` to have handled `event`.
    Delivering { event: FileSystemEvent, listener: usize },
    /// Given up.
    Failed,
}

pub enum WatchStateView {
    Configured,
    Creating,
    Registering(nat),
    Waiting,
    Delivering { event: FileSystemEventView, listener: nat },
    Failed,
}

impl View for WatchState {
    type V = WatchStateView;

    open spec fn view(&self) -> WatchStateView {
        match self {
            WatchState::Configured => WatchStateView::Configured,
            WatchState::Creating => WatchStateView::Creating,
            WatchState::Registering(i) => WatchStateView::Registering(*i as nat),
            WatchState::Waiting => WatchStateView::Waiting,
            WatchState::Delivering { event, listener } => WatchStateView::Delivering {
                event: event@,
                listener: *listener as nat,
            },
            WatchState::Failed => WatchStateView::Failed,
        }
    }
}

/// What came of the work that the watcher last asked for.
#[derive(Debug, Clone, PartialEq, Eq)]
pub enum WatchInput {
    /// The work was done: the watch created, the path registered, the
    /// event handled.
    Done,
    /// The work failed, for this cause.
    Failed(String),
    /// An event arrived.
    Event(FileSystemEvent),
}

pub enum WatchInputView {
    Done,
    Failed(Seq<char>),
    Event(FileSystemEventView),
}

impl View for WatchInput {
    type V = WatchInputView;

    open spec fn view(&self) -> WatchInputView {
        match self {
            WatchInput::Done => WatchInputView::Done,
            WatchInput::Failed(cause) => WatchInputView::Failed(cause@),
            WatchInput::Event(event) => WatchInputView::Event(event@),
        }
    }
}

/// The work that the watcher asks of its caller.
#[derive(Debug, Clone, PartialEq, Eq)]
pub enum WatchAction {
    /// Create the watch, with this quiet period.
    CreateWatch { debounce_secs: u64 },
    /// Register `path`, with all that lies below it.
    Register { path: String, recursive: bool },
    /// Wait for the next event.
    Receive,
    /// Hand `event` to the listener at place `listener`, and wait until it
    /// has handled it.
    Deliver { listener: usize, event: FileSystemEvent },
    /// Stop: the watcher cannot go on.
    Abort(WatchError),
}

pub enum WatchActionView {
    CreateWatch { debounce_secs: u64 },
    Register { path: Seq<char>, recursive: bool },
    Receive,
    Deliver { listener: nat, event: FileSystemEventView },
    Abort(WatchErrorView),
}

impl View for WatchAction {
    type V = WatchActionView;

    open spec fn view(&self) -> WatchActionView {
        match self {
            WatchAction::CreateWatch { debounce_secs } => WatchActionView::CreateWatch {
                debounce_secs: *debounce_secs,
            },
            WatchAction::Register { path, recursive } => WatchActionView::Register {
                path: path@,
                recursive: *recursive,
            },
            WatchAction::Receive => WatchActionView::Receive,
            WatchAction::Deliver { listener, event } => WatchActionView::Deliver {
                listener: *listener as nat,
                event: event@,
            },
            WatchAction::Abort(e) => WatchActionView::Abort(e@),
        }
    }
}

/// The model of a watcher: its pool, the number of its listeners, its
/// quiet period, and where it stands.
pub struct WatcherView {
    pub pool: Seq<Seq<char>>,
    pub listeners: nat,
    pub debounce_secs: u64,
    pub state: WatchStateView,
}

impl WatcherView {
    pub open spec fn at(self, state: WatchStateView) -> WatcherView {
        WatcherView { state, ..self }
    }

    /// What follows once the path at place `i` of the pool is dealt with:
    /// the next path to register, or the wait for events.
    pub open spec fn register_from(self, i: nat) -> (WatcherView, WatchActionView) {
        if i < self.pool.len() {
            (
                self.at(WatchStateView::Registering(i)),
                WatchActionView::Register { path: self.pool[i as int], recursive: true },
            )
        } else {
            (self.at(WatchStateView::Waiting), WatchActionView::Receive)
        }
    }

    /// What follows once the listeners before place `i` have handled
    /// `event`: the next listener, or the wait for the next event.
    pub open spec fn deliver_from(self, event: FileSystemEventView, i: nat) -> (
        WatcherView,
        WatchActionView,
    ) {
        if i < self.listeners {
            (
                self.at(WatchStateView::Delivering { event, listener: i }),
                WatchActionView::Deliver { listener: i, event },
            )
        } else {
            (self.at(WatchStateView::Waiting), WatchActionView::Receive)
        }
    }

    /// The step that the watcher takes on an input.
    pub open spec fn next(self, input: WatchInputView) -> (WatcherView, WatchActionView) {
        match (self.state, input) {
            (WatchStateView::Creating, WatchInputView::Done) => self.register_from(0),
            (WatchStateView::Creating, WatchInputView::Failed(cause)) => (
                self.at(WatchStateView::Failed),
                WatchActionView::Abort(WatchErrorView::CreateFailed(cause)),
            ),
            (WatchStateView::Registering(i), WatchInputView::Done) => self.register_from(i + 1),
            (WatchStateView::Registering(i), WatchInputView::Failed(cause)) => if i
                < self.pool.len() {
                (
                    self.at(WatchStateView::Failed),
                    WatchActionView::Abort(
                        WatchErrorView::RegisterFailed { path: self.pool[i as int], cause },
                    ),
                )
            } else {
                (self.at(WatchStateView::Failed), WatchActionView::Abort(WatchErrorView::OutOfTurn))
            },
            (WatchStateView::Waiting, WatchInputView::Event(event)) => self.deliver_from(event, 0),
            (WatchStateView::Waiting, WatchInputView::Failed(_)) => (self, WatchActionView::Receive),
            (WatchStateView::Delivering { event, listener }, WatchInputView::Done) => self.deliver_from(
                event,
                listener + 1,
            ),
            (
                WatchStateView::Delivering { event, listener },
                WatchInputView::Failed(_),
            ) => self.deliver_from(event, listener + 1),
            _ => (self.at(WatchStateView::Failed), WatchActionView::Abort(WatchErrorView::OutOfTurn)),
        }
    }

    /// The first step of the watcher: it asks for the watch.
    pub open spec fn started(self) -> (WatcherView, WatchActionView) {
        match self.state {
            WatchStateView::Configured => (
                self.at(WatchStateView::Creating),
                WatchActionView::CreateWatch { debounce_secs: self.debounce_secs },
            ),
            _ => (self.at(WatchStateView::Failed), WatchActionView::Abort(WatchErrorView::OutOfTurn)),
        }
    }

    /// The watcher after it was handed `inputs` one after the other.
    pub open spec fn after(self, inputs: Seq<WatchInputView>) -> WatcherView
        decreases inputs.len(),
    {
        if inputs.len() == 0 {
            self
        } else {
            self.after(inputs.drop_last()).next(inputs.last()).0
        }
    }

    /// What the watcher asked for when it was handed the last of `inputs`.
    pub open spec fn asked(self, inputs: Seq<WatchInputView>) -> WatchActionView
        recommends
            inputs.len() > 0,
    {
        self.after(inputs.drop_last()).next(inputs.last()).1
    }
}

/// Watches the paths of a pool and hands each event to its listeners, in
/// the order in which they were added.
pub struct PoolWatcher<L> {
    pub(crate) pool: Pool,
    pub(crate) listeners: Vec<L>,
    debounce_secs: u64,
    state: WatchState,
}

impl<L> View for PoolWatcher<L> {
    type V = WatcherView;

    closed spec fn view(&self) -> WatcherView {
        WatcherView {
            pool: self.pool@,
            listeners: self.listeners.len() as nat,
            debounce_secs: self.debounce_secs,
            state: self.state@,
        }
    }
}

impl<L> PoolWatcher<L> {
    /// The listeners, in the order in which they were added.
    pub closed spec fn listeners_view(&self) -> Seq<L> {
        self.listeners@
    }

    /// The model counts the listeners that are there.
    pub proof fn lemma_listeners(&self)
        ensures
            self@.listeners == self.listeners_view().len(),
    {
    }

    /// A watcher for what the patterns matched, without listeners, with
    /// the default quiet period, not started.
    pub fn init(paths: &Vec<Matches>) -> (r: Self)
        ensures
            r@ == (WatcherView {
                pool: distinct(found(paths.deep_view())),
                listeners: 0,
                debounce_secs: DEFAULT_DEBOUNCE_SECS,
                state: WatchStateView::Configured,
            }),
            r@.pool.no_duplicates(),
            r.listeners_view() == Seq::<L>::empty(),
    {
        PoolWatcher::from_pool(Pool::from(paths))
    }

    /// A watcher for the paths of `pool`, without listeners, with the
    /// default quiet period, not started.
    pub fn from_pool(pool: Pool) -> (r: Self)
        ensures
            r@ == (WatcherView {
                pool: pool@,
                listeners: 0,
                debounce_secs: DEFAULT_DEBOUNCE_SECS,
                state: WatchStateView::Configured,
            }),
            r.listeners_view() == Seq::<L>::empty(),
    {
        PoolWatcher {
            pool,
            listeners: Vec::new(),
            debounce_secs: DEFAULT_DEBOUNCE_SECS,
            state: WatchState::Configured,
        }
    }

    /// Sets the quiet period.
    pub fn set_debounce_secs(&mut self, secs: u64)
        ensures
            final(self)@ == (WatcherView { debounce_secs: secs, ..old(self)@ }),
            final(self).listeners_view() == old(self).listeners_view(),
    {
        self.debounce_secs = secs;
    }

    /// Adds a listener after those that are there.
    pub fn add_listener(&mut self, listener: L)
        ensures
            final(self).listeners_view() == old(self).listeners_view().push(listener),
            final(self)@ == (WatcherView { listeners: old(self)@.listeners + 1, ..old(self)@ }),
    {
        self.listeners.push(listener);
    }

    /// The listener at place `i`.
    pub fn listener(&self, i: usize) -> (r: Option<&L>)
        ensures
            r == if i < self@.listeners {
                Some(&self.listeners_view()[i as int])
            } else {
                None
            },
    {
        if i < self.listeners.len() {
            Some(&self.listeners[i])
        } else {
            None
        }
    }

    /// The pool of paths that this watcher observes.
    pub fn pool(&self) -> (r: &Pool)
        ensures
            r@ == self@.pool,
    {
        &self.pool
    }

    /// Starts the watcher: it asks for the watch to be created.
    pub fn start(&mut self) -> (action: WatchAction)
        ensures
            final(self).listeners_view() == old(self).listeners_view(),
            (final(self)@, action@) == old(self)@.started(),
    {
        match self.state {
            WatchState::Configured => {
                self.state = WatchState::Creating;
                WatchAction::CreateWatch { debounce_secs: self.debounce_secs }
            },
            _ => {
                self.state = WatchState::Failed;
                WatchAction::Abort(WatchError::OutOfTurn)
            },
        }
    }

    /// Takes an event that arrived, and says to whom it goes first.
    pub fn notify(&mut self, event: FileSystemEvent) -> (action: WatchAction)
        ensures
            final(self).listeners_view() == old(self).listeners_view(),
            (final(self)@, action@) == old(self)@.next(WatchInputView::Event(event@)),
    {
        self.advance(WatchInput::Event(event))
    }

    /// Takes what came of the work last asked for, and says what is asked
    /// next.
    pub fn advance(&mut self, input: WatchInput) -> (action: WatchAction)
        ensures
            final(self).listeners_view() == old(self).listeners_view(),
            (final(self)@, action@) == old(self)@.next(input@),
    {
        let mut state = WatchState::Failed;
        std::mem::swap(&mut self.state, &mut state);
        match (state, input) {
            (WatchState::Creating, WatchInput::Done) => self.register_from(0),
            (WatchState::Creating, WatchInput::Failed(cause)) => WatchAction::Abort(
                WatchError::CreateFailed(cause),
            ),
            (WatchState::Registering(i), WatchInput::Done) => {
                if i < self.pool.len() {
                    self.register_from(i + 1)
                } else {
                    self.state = WatchState::Waiting;
                    WatchAction::Receive
                }
            },
            (WatchState::Registering(i), WatchInput::Failed(cause)) => {
                if i < self.pool.len() {
                    let paths = self.pool.paths();
                    let path = paths[i].clone();
                    assert(path@ == paths.deep_view()[i as int]);
                    WatchAction::Abort(WatchError::RegisterFailed { path, cause })
                } else {
                    WatchAction::Abort(WatchError::OutOfTurn)
                }
            },
            (WatchState::Waiting, WatchInput::Event(event)) => self.deliver_from(event, 0),
            (WatchState::Waiting, WatchInput::Failed(_)) => {
                self.state = WatchState::Waiting;
                WatchAction::Receive
            },
            (WatchState::Delivering { event, listener }, WatchInput::Done) => self.deliver_next(
                event,
                listener,
            ),
            (WatchState::Delivering { event, listener }, WatchInput::Failed(_)) => self.deliver_next(
                event,
                listener,
            ),
            _ => WatchAction::Abort(WatchError::OutOfTurn),
        }
    }

    fn register_from(&mut self, i: usize) -> (action: WatchAction)
        ensures
            final(self).listeners_view() == old(self).listeners_view(),
            (final(self)@, action@) == old(self)@.register_from(i as nat),
    {
        if i < self.pool.len() {
            self.state = WatchState::Registering(i);
            WatchAction::Register { path: self.pool.paths()[i].clone(), recursive: true }
        } else {
            self.state = WatchState::Waiting;
            WatchAction::Receive
        }
    }

    fn deliver_next(&mut self, event: FileSystemEvent, handled: usize) -> (action: WatchAction)
        ensures
            final(self).listeners_view() == old(self).listeners_view(),
            (final(self)@, action@) == old(self)@.deliver_from(event@, handled as nat + 1),
    {
        if handled < self.listeners.len() {
            self.deliver_from(event, handled + 1)
        } else {
            self.state = WatchState::Waiting;
            WatchAction::Receive
        }
    }

    fn deliver_from(&mut self, event: FileSystemEvent, i: usize) -> (action: WatchAction)
        ensures
            final(self).listeners_view() == old(self).listeners_view(),
            (final(self)@, action@) == old(self)@.deliver_from(event@, i as nat),
    {
        if i < self.listeners.len() {
            let copy = event.duplicate();
            self.state = WatchState::Delivering { event, listener: i };
            WatchAction::Deliver { listener: i, event: copy }
        } else {
            self.state = WatchState::Waiting;
            WatchAction::Receive
        }
    }
}

/// Whether an input says how a piece of work ended, well or not.
pub open spec fn is_end_of_work(input: WatchInputView) -> bool {
    input is Done || input is Failed
}

/// Each event goes to every listener once, in the order in which the
/// listeners were added, and to the next one only after the one before has
/// ended, whether it failed or not. After the last listener the watcher
/// waits for the next event.
///
/// `handled` holds how each listener's work ended; `k` is a place among
/// the listeners.
pub proof fn lemma_fan_out(
    watcher: WatcherView,
    event: FileSystemEventView,
    handled: Seq<WatchInputView>,
    k: int,
)
    requires
        watcher.state is Waiting,
        handled.len() == watcher.listeners,
        forall|i: int| 0 <= i < handled.len() ==> is_end_of_work(#[trigger] handled[i]),
        0 <= k <= watcher.listeners,
    ensures
        ({
            let inputs = seq![WatchInputView::Event(event)] + handled;
            &&& k < watcher.listeners ==> watcher.asked(inputs.take(k + 1)) == (
            WatchActionView::Deliver { listener: k as nat, event })
            &&& k < watcher.listeners ==> watcher.after(inputs.take(k + 1)) == watcher.at(
                WatchStateView::Delivering { event, listener: k as nat },
            )
            &&& k == watcher.listeners ==> watcher.asked(inputs.take(k + 1))
                == WatchActionView::Receive
            &&& k == watcher.listeners ==> watcher.after(inputs.take(k + 1)) == watcher
        }),
    decreases k,
{
    let inputs = seq![WatchInputView::Event(event)] + handled;
    let upto = inputs.take(k + 1);
    assert(upto.drop_last() =~= inputs.take(k));
    assert(watcher.at(WatchStateView::Waiting) == watcher);
    if k == 0 {
        assert(inputs.take(0) =~= Seq::<WatchInputView>::empty());
        assert(upto.last() == WatchInputView::Event(event));
    } else {
        lemma_fan_out(watcher, event, handled, k - 1);
        assert(upto.last() == handled[k - 1]);
    }
}

/// The watcher registers every path of its pool once, in the pool's order
/// and with all that lies below it, before it waits for the first event.
///
/// `k` is a place in the pool; the inputs are the watch that was created
/// and one registration done for each path before `k`.
pub proof fn lemma_registers_pool(watcher: WatcherView, done: Seq<WatchInputView>, k: int)
    requires
        watcher.state is Configured,
        0 <= k <= watcher.pool.len(),
        done.len() == k + 1,
        forall|i: int| 0 <= i < done.len() ==> (#[trigger] done[i]) is Done,
    ensures
        watcher.started().1 == (WatchActionView::CreateWatch {
            debounce_secs: watcher.debounce_secs,
        }),
        k < watcher.pool.len() ==> watcher.started().0.asked(done) == (WatchActionView::Register {
            path: watcher.pool[k],
            recursive: true,
        }),
        k < watcher.pool.len() ==> watcher.started().0.after(done) == watcher.at(
            WatchStateView::Registering(k as nat),
        ),
        k == watcher.pool.len() ==> watcher.started().0.asked(done) == WatchActionView::Receive,
        k == watcher.pool.len() ==> watcher.started().0.after(done) == watcher.at(
            WatchStateView::Waiting,
        ),
    decreases k,
{
    let begun = watcher.started().0;
    if k == 0 {
        assert(done.drop_last() =~= Seq::<WatchInputView>::empty());
    } else {
        lemma_registers_pool(watcher, done.drop_last(), k - 1);
    }
}

/// A path that cannot be registered ends the watcher, with an error that
/// names the path and the cause; so does a watch that cannot be created.
/// Once it has given up, the watcher asks for nothing more.
pub proof fn lemma_setup_failure_is_fatal(watcher: WatcherView, cause: Seq<char>, later: WatchInputView)
    ensures
        watcher.state is Creating ==> watcher.next(WatchInputView::Failed(cause)) == (
            watcher.at(WatchStateView::Failed),
            WatchActionView::Abort(WatchErrorView::CreateFailed(cause)),
        ),
        watcher.state matches WatchStateView::Registering(i) ==> i < watcher.pool.len()
            ==> watcher.next(WatchInputView::Failed(cause)) == (
            watcher.at(WatchStateView::Failed),
            WatchActionView::Abort(
                WatchErrorView::RegisterFailed { path: watcher.pool[i as int], cause },
            ),
        ),
        watcher.state is Failed ==> watcher.next(later) == (
            watcher,
            WatchActionView::Abort(WatchErrorView::OutOfTurn),
        ),
        watcher.state is Waiting ==> watcher.next(WatchInputView::Failed(cause)) == (
            watcher,
            WatchActionView::Receive,
        ),
{
    if watcher.state is Failed {
        assert(watcher.at(WatchStateView::Failed) == watcher);
    }
}

} // verus!
