//! The message log and the viewport onto it.
//!
//! Messages are kept in the order in which they arrive and are shown in that
//! order. The viewport is a window of `height` lines that ends `scroll_offset`
//! messages before the newest one.

use crate::message::{views, ChatMessage, ChatMessageView};
use vstd::prelude::*;
use vstd::slice::slice_subrange;

verus! {

/// The rows of the terminal that do not show the log: the margin, the
/// borders and the input box.
pub const FRAME_ROWS: u16 = 7;

/// The rows that are left for the log on a terminal of `terminal_rows` rows.
pub open spec fn log_rows(terminal_rows: nat) -> nat {
    if terminal_rows > FRAME_ROWS {
        (terminal_rows - FRAME_ROWS) as nat
    } else {
        0
    }
}

/// The height of the viewport on a terminal of `terminal_rows` rows.
pub fn viewport_height(terminal_rows: u16) -> (height: usize)
    ensures
        height == log_rows(terminal_rows as nat),
{
    if terminal_rows > FRAME_ROWS {
        (terminal_rows - FRAME_ROWS) as usize
    } else {
        0
    }
}

/// How far the viewport can be scrolled back: the number of messages that do
/// not fit into it.
pub open spec fn max_scroll(total: nat, height: nat) -> nat {
    if total > height {
        (total - height) as nat
    } else {
        0
    }
}

/// The index of the first visible message.
pub open spec fn window_start(total: nat, height: nat, scroll: nat) -> nat {
    if total > height && total - height > scroll {
        (total - height - scroll) as nat
    } else {
        0
    }
}

/// The index after the last visible message.
pub open spec fn window_end(total: nat, height: nat, scroll: nat) -> nat {
    let end = window_start(total, height, scroll) + height;
    if end < total {
        end
    } else {
        total
    }
}

/// The visible part of a log.
pub open spec fn window<T>(log: Seq<T>, height: nat, scroll: nat) -> Seq<T> {
    log.subrange(
        window_start(log.len(), height, scroll) as int,
        window_end(log.len(), height, scroll) as int,
    )
}

/// The scroll position: how many messages lie between the newest message and
/// the last visible one.
#[derive(Clone, Copy, Debug, PartialEq, Eq, Structural)]
pub struct ViewportState {
    pub scroll_offset: usize,
}

impl ViewportState {
    /// The position is one that a log of `total` messages allows in a
    /// viewport of `height` lines.
    pub open spec fn in_range(self, total: nat, height: nat) -> bool {
        self.scroll_offset <= max_scroll(total, height)
    }

    /// The viewport at the newest message.
    pub fn new() -> (v: Self)
        ensures
            v.scroll_offset == 0,
    {
        ViewportState { scroll_offset: 0 }
    }

    /// The largest offset allowed.
    pub fn limit(total: usize, height: usize) -> (m: usize)
        ensures
            m == max_scroll(total as nat, height as nat),
    {
        if total > height {
            total - height
        } else {
            0
        }
    }

    /// Brings the offset back into range after the log or the height changed.
    pub fn clamp(&mut self, total: usize, height: usize)
        ensures
            final(self).scroll_offset == if old(self).scroll_offset <= max_scroll(
                total as nat,
                height as nat,
            ) {
                old(self).scroll_offset as nat
            } else {
                max_scroll(total as nat, height as nat)
            },
            final(self).in_range(total as nat, height as nat),
    {
        let limit = ViewportState::limit(total, height);
        if self.scroll_offset > limit {
            self.scroll_offset = limit;
        }
    }

    /// Scrolls one message towards the oldest, as far as the range allows.
    pub fn scroll_up(&mut self, total: usize, height: usize)
        ensures
            final(self).scroll_offset == if old(self).scroll_offset < max_scroll(
                total as nat,
                height as nat,
            ) {
                old(self).scroll_offset + 1
            } else {
                max_scroll(total as nat, height as nat) as int
            },
            final(self).in_range(total as nat, height as nat),
    {
        let limit = ViewportState::limit(total, height);
        if self.scroll_offset < limit {
            self.scroll_offset = self.scroll_offset + 1;
        } else {
            self.scroll_offset = limit;
        }
    }

    /// Scrolls one message towards the newest, as far as the range allows.
    pub fn scroll_down(&mut self, total: usize, height: usize)
        ensures
            final(self).scroll_offset == if old(self).scroll_offset == 0 {
                0
            } else if old(self).scroll_offset - 1 <= max_scroll(total as nat, height as nat) {
                old(self).scroll_offset - 1
            } else {
                max_scroll(total as nat, height as nat) as int
            },
            final(self).in_range(total as nat, height as nat),
    {
        let limit = ViewportState::limit(total, height);
        if self.scroll_offset > 0 {
            self.scroll_offset = self.scroll_offset - 1;
        }
        if self.scroll_offset > limit {
            self.scroll_offset = limit;
        }
    }

    /// The bounds of the visible part of a log of `total` messages.
    pub fn bounds(&self, total: usize, height: usize) -> (b: (usize, usize))
        ensures
            b.0 == window_start(total as nat, height as nat, self.scroll_offset as nat),
            b.1 == window_end(total as nat, height as nat, self.scroll_offset as nat),
            b.0 <= b.1 <= total,
    {
        let start: usize = if total > height && total - height > self.scroll_offset {
            total - height - self.scroll_offset
        } else {
            0
        };
        let end: usize = if height < total - start {
            start + height
        } else {
            total
        };
        (start, end)
    }
}

/// What a store holds, as plain values.
pub struct StoreView {
    pub log: Seq<ChatMessageView>,
    pub scroll_offset: nat,
}

impl StoreView {
    /// The store with no message, at the newest end.
    pub open spec fn empty() -> StoreView {
        StoreView { log: Seq::empty(), scroll_offset: 0 }
    }

    /// The number of messages.
    pub open spec fn total(self) -> nat {
        self.log.len()
    }

    /// The store after one more message arrived.
    pub open spec fn append(self, msg: ChatMessageView) -> StoreView {
        StoreView { log: self.log.push(msg), ..self }
    }

    /// The store after the messages of `msgs` arrived, in their order.
    pub open spec fn append_all(self, msgs: Seq<ChatMessageView>) -> StoreView {
        StoreView { log: self.log + msgs, ..self }
    }

    /// The store after it was cleared.
    pub open spec fn clear(self) -> StoreView {
        StoreView::empty()
    }

    /// The scroll position lies in the range that `height` allows.
    pub open spec fn in_range(self, height: nat) -> bool {
        self.scroll_offset <= max_scroll(self.total(), height)
    }

    /// The store with its scroll position brought back into range.
    pub open spec fn clamp(self, height: nat) -> StoreView {
        let limit = max_scroll(self.total(), height);
        StoreView {
            scroll_offset: if self.scroll_offset <= limit {
                self.scroll_offset
            } else {
                limit
            },
            ..self
        }
    }

    /// The store scrolled one message towards the oldest.
    pub open spec fn scroll_up(self, height: nat) -> StoreView {
        let limit = max_scroll(self.total(), height);
        StoreView {
            scroll_offset: if self.scroll_offset < limit {
                self.scroll_offset + 1
            } else {
                limit
            },
            ..self
        }
    }

    /// The store scrolled one message towards the newest.
    pub open spec fn scroll_down(self, height: nat) -> StoreView {
        let limit = max_scroll(self.total(), height);
        StoreView {
            scroll_offset: if self.scroll_offset == 0 {
                0
            } else if self.scroll_offset - 1 <= limit {
                (self.scroll_offset - 1) as nat
            } else {
                limit
            },
            ..self
        }
    }

    /// The messages that a viewport of `height` lines shows.
    pub open spec fn visible(self, height: nat) -> Seq<ChatMessageView> {
        window(self.log, height, self.scroll_offset)
    }
}

/// The shape of the window, for a scroll position in range: it holds as many
/// messages as fit, in the order of the log, and ends `scroll` messages
/// before the newest one.
pub proof fn lemma_window_shape<T>(log: Seq<T>, height: nat, scroll: nat)
    requires
        scroll <= max_scroll(log.len(), height),
    ensures
        window(log, height, scroll).len() == if height < log.len() {
            height
        } else {
            log.len()
        },
        forall|i: int|
            0 <= i < window(log, height, scroll).len() ==> #[trigger] window(log, height, scroll)[i]
                == log[window_start(log.len(), height, scroll) + i],
        0 < height < log.len() ==> window(log, height, scroll).last() == log[log.len() - 1
            - scroll],
{
}

/// A window never holds more than `height` messages, nor more than the log,
/// whatever the scroll position.
pub proof fn lemma_window_bounded<T>(log: Seq<T>, height: nat, scroll: nat)
    ensures
        window(log, height, scroll).len() <= height,
        window(log, height, scroll).len() <= log.len(),
        window_start(log.len(), height, scroll) <= window_end(log.len(), height, scroll)
            <= log.len(),
{
}

/// However many messages arrived, a cleared store holds none and shows none,
/// whatever the height.
pub proof fn lemma_clear_shows_nothing(
    store: StoreView,
    msgs: Seq<ChatMessageView>,
    height: nat,
)
    ensures
        store.append_all(msgs).clear().total() == 0,
        store.append_all(msgs).clear().visible(height) == Seq::<ChatMessageView>::empty(),
{
    assert(store.append_all(msgs).clear().visible(height) =~= Seq::<ChatMessageView>::empty());
}

/// Appending message by message is appending all of them.
pub proof fn lemma_append_all(store: StoreView, msgs: Seq<ChatMessageView>, msg: ChatMessageView)
    ensures
        store.append_all(msgs).append(msg) == store.append_all(msgs.push(msg)),
        store.append_all(Seq::empty()) == store,
{
    assert(store.log + msgs.push(msg) =~= (store.log + msgs).push(msg));
    assert(store.log + Seq::<ChatMessageView>::empty() =~= store.log);
}

/// The log of messages with the scroll position of the viewport.
pub struct MessageStore {
    log: Vec<ChatMessage>,
    viewport: ViewportState,
}

impl View for MessageStore {
    type V = StoreView;

    closed spec fn view(&self) -> StoreView {
        StoreView { log: views(self.log@), scroll_offset: self.viewport.scroll_offset as nat }
    }
}

impl MessageStore {
    /// An empty store.
    pub fn new() -> (s: Self)
        ensures
            s@ == StoreView::empty(),
    {
        let s = MessageStore { log: Vec::new(), viewport: ViewportState::new() };
        assert(s@.log =~= Seq::empty());
        s
    }

    /// Adds a message at the end of the log.
    pub fn append(&mut self, msg: ChatMessage)
        ensures
            final(self)@ == old(self)@.append(msg@),
    {
        self.log.push(msg);
        assert(views(self.log@) =~= views(old(self).log@).push(msg@));
    }

    /// Empties the log and returns the viewport to the newest end.
    pub fn clear(&mut self)
        ensures
            final(self)@ == old(self)@.clear(),
    {
        self.log.clear();
        self.viewport = ViewportState::new();
        assert(views(self.log@) =~= Seq::empty());
    }

    /// The number of messages in the log.
    pub fn total(&self) -> (n: usize)
        ensures
            n == self@.total(),
    {
        self.log.len()
    }

    /// The scroll position.
    pub fn scroll_offset(&self) -> (n: usize)
        ensures
            n == self@.scroll_offset,
    {
        self.viewport.scroll_offset
    }

    /// Brings the scroll position back into the range that `height` allows.
    pub fn clamp_scroll(&mut self, height: usize)
        ensures
            final(self)@ == old(self)@.clamp(height as nat),
            final(self)@.in_range(height as nat),
    {
        self.viewport.clamp(self.log.len(), height);
    }

    /// Scrolls one message towards the oldest.
    pub fn scroll_up(&mut self, height: usize)
        ensures
            final(self)@ == old(self)@.scroll_up(height as nat),
            final(self)@.in_range(height as nat),
    {
        self.viewport.scroll_up(self.log.len(), height);
    }

    /// Scrolls one message towards the newest.
    pub fn scroll_down(&mut self, height: usize)
        ensures
            final(self)@ == old(self)@.scroll_down(height as nat),
            final(self)@.in_range(height as nat),
    {
        self.viewport.scroll_down(self.log.len(), height);
    }

    /// The messages that a viewport of `height` lines shows, oldest first.
    pub fn visible_window(&self, height: usize) -> (w: &[ChatMessage])
        ensures
            views(w@) == self@.visible(height as nat),
            w@.len() <= height,
            self@.in_range(height as nat) ==> w@.len() == if height < self@.total() {
                height as nat
            } else {
                self@.total()
            },
            self@.in_range(height as nat) && 0 < height < self@.total() ==> w@.last()@
                == self@.log[self@.total() - 1 - self@.scroll_offset],
    {
        let (start, end) = self.viewport.bounds(self.log.len(), height);
        let w = slice_subrange(self.log.as_slice(), start, end);
        proof {
            assert(views(w@) =~= self@.visible(height as nat));
            if self@.in_range(height as nat) {
                lemma_window_shape(self@.log, height as nat, self@.scroll_offset);
            }
        }
        w
    }
}

} // verus!
