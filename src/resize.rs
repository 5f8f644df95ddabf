//! The resize watcher's decisions: after each re-query of the terminal's
//! geometry, what to publish on the channel that subscribers read. A size
//! is published only when it differs from the one published last; a failed
//! query publishes nothing.
use vstd::prelude::*;

use crate::TerminalSize;

verus! {

/// Whether a re-query that gave `queried` (`None` for a failed query) is
/// published when `last` was published last.
pub open spec fn publishes(last: TerminalSize, queried: Option<TerminalSize>) -> bool {
    match queried {
        Some(q) => q != last,
        None => false,
    }
}

/// The last published size after a re-query that gave `queried`.
pub open spec fn after_tick(last: TerminalSize, queried: Option<TerminalSize>) -> TerminalSize {
    match queried {
        Some(q) => q,
        None => last,
    }
}

/// The state of one resize watcher: the size it published last, which is
/// what the channel's slot holds, since the watcher is its only writer.
pub struct ResizeWatcher {
    last: TerminalSize,
}

impl View for ResizeWatcher {
    type V = TerminalSize;

    closed spec fn view(&self) -> TerminalSize {
        self.last
    }
}

impl ResizeWatcher {
    /// A watcher for a channel that was seeded with `initial`.
    pub fn new(initial: TerminalSize) -> (r: Self)
        ensures
            r@ == initial,
    {
        ResizeWatcher { last: initial }
    }

    /// The size published last.
    pub fn last_published(&self) -> (r: TerminalSize)
        ensures
            r == self@,
    {
        self.last
    }

    /// Handles one re-query of the geometry that gave `queried` (`None` for
    /// a failed query): returns the size to send to the subscribers, which
    /// is `queried` when it is a size other than the last published one, and
    /// nothing otherwise. A returned size becomes the last published one.
    pub fn publish(&mut self, queried: Option<TerminalSize>) -> (r: Option<TerminalSize>)
        ensures
            r == (if publishes(old(self)@, queried) {
                queried
            } else {
                None::<TerminalSize>
            }),
            final(self)@ == after_tick(old(self)@, queried),
    {
        match queried {
            Some(size) => {
                if size != self.last {
                    self.last = size;
                    Some(size)
                } else {
                    None
                }
            },
            None => None,
        }
    }
}

/// A changed geometry is published, and only once: after it has been
/// published, the same geometry queried again is not published again.
pub proof fn lemma_change_published_once(last: TerminalSize, queried: TerminalSize)
    requires
        queried != last,
    ensures
        publishes(last, Some(queried)),
        after_tick(last, Some(queried)) == queried,
        !publishes(after_tick(last, Some(queried)), Some(queried)),
{
}

/// A geometry equal to the last published one, or a failed query, publishes
/// nothing and leaves the last published size as it was.
pub proof fn lemma_unchanged_not_published(last: TerminalSize)
    ensures
        !publishes(last, Some(last)),
        after_tick(last, Some(last)) == last,
        !publishes(last, None),
        after_tick(last, None) == last,
{
}

/// The last published size is always the one before the re-query or the
/// size that the re-query returned, so a channel that holds what is
/// published holds its seed or a queried size.
pub proof fn lemma_published_is_queried(last: TerminalSize, queried: Option<TerminalSize>)
    ensures
        after_tick(last, queried) == last || queried == Some(after_tick(last, queried)),
        publishes(last, queried) ==> queried == Some(after_tick(last, queried)),
{
}

} // verus!
