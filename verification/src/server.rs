//! The start of the daemon's watch.

use crate::watcher::pool::{distinct, found, Matches};
use crate::watcher::{PoolWatcher, WatchAction, WatchActionView, WatchStateView, WatcherView, DEFAULT_DEBOUNCE_SECS};
use vstd::prelude::*;

verus! {

/// The daemon's watch, from its start.
pub struct Server;

impl Server {
    /// Starts the server: a watcher for what the patterns matched, and its
    /// first request, to create the watch.
    pub fn start<L>(paths: &Vec<Matches>) -> (r: (PoolWatcher<L>, WatchAction))
        ensures
            r.0.listeners_view() == Seq::<L>::empty(),
            r.0@ == (WatcherView {
                pool: distinct(found(paths.deep_view())),
                listeners: 0,
                debounce_secs: DEFAULT_DEBOUNCE_SECS,
                state: WatchStateView::Creating,
            }),
            r.1@ == (WatchActionView::CreateWatch { debounce_secs: DEFAULT_DEBOUNCE_SECS }),
    {
        let mut watcher = PoolWatcher::init(paths);
        let action = watcher.start();
        (watcher, action)
    }
}

} // verus!
