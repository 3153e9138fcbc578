//! What the reader of one connection does with what it reads.
//!
//! The reader itself, which waits for frames, lives outside this library and
//! hands each item here. A text frame that decodes to a message is passed on;
//! any other frame is dropped without a trace; when the stream ends, the
//! reader posts one notice and stops.

use crate::message::{disconnected_notice, ChatMessage, ChatMessageView};
use vstd::prelude::*;

verus! {

/// One item read from the stream, as plain values.
pub enum StreamItemView {
    Text(Option<ChatMessageView>),
    Other,
    Ended,
}

/// One item read from the stream.
#[derive(Debug, PartialEq, Eq)]
pub enum StreamItem {
    /// A text frame, with the message it decodes to, if it decodes.
    Text(Option<ChatMessage>),
    /// A frame of any other kind.
    Other,
    /// The end of the stream, or an error while reading.
    Ended,
}

impl View for StreamItem {
    type V = StreamItemView;

    open spec fn view(&self) -> StreamItemView {
        match self {
            StreamItem::Text(Some(msg)) => StreamItemView::Text(Some(msg@)),
            StreamItem::Text(None) => StreamItemView::Text(None),
            StreamItem::Other => StreamItemView::Other,
            StreamItem::Ended => StreamItemView::Ended,
        }
    }
}

/// What the reader does next, as plain values.
pub enum IngestStepView {
    Deliver(ChatMessageView),
    Skip,
    Finish(ChatMessageView),
}

/// What the reader does next.
#[derive(Debug, PartialEq, Eq)]
pub enum IngestStep {
    /// Pass the message on and go on reading.
    Deliver(ChatMessage),
    /// Go on reading.
    Skip,
    /// Pass the notice on and stop reading.
    Finish(ChatMessage),
}

impl View for IngestStep {
    type V = IngestStepView;

    open spec fn view(&self) -> IngestStepView {
        match self {
            IngestStep::Deliver(msg) => IngestStepView::Deliver(msg@),
            IngestStep::Skip => IngestStepView::Skip,
            IngestStep::Finish(msg) => IngestStepView::Finish(msg@),
        }
    }
}

/// What a reader does with an item. A reader that has stopped does nothing.
pub open spec fn ingest_step(running: bool, item: StreamItemView) -> IngestStepView {
    if !running {
        IngestStepView::Skip
    } else {
        match item {
            StreamItemView::Text(Some(msg)) => IngestStepView::Deliver(msg),
            StreamItemView::Text(None) => IngestStepView::Skip,
            StreamItemView::Other => IngestStepView::Skip,
            StreamItemView::Ended => IngestStepView::Finish(disconnected_notice()),
        }
    }
}

/// Whether a reader goes on after an item.
pub open spec fn ingest_running(running: bool, item: StreamItemView) -> bool {
    running && !(item is Ended)
}

/// What a reader passes on, item by item: the messages that decoded, in the
/// order in which they were read, and after them the notice, once the stream
/// has ended. Nothing that is read after the end is passed on.
pub open spec fn delivered(running: bool, items: Seq<StreamItemView>) -> Seq<ChatMessageView>
    decreases items.len(),
{
    if items.len() == 0 {
        Seq::empty()
    } else {
        let rest = delivered(ingest_running(running, items[0]), items.drop_first());
        match ingest_step(running, items[0]) {
            IngestStepView::Deliver(msg) => seq![msg] + rest,
            IngestStepView::Finish(msg) => seq![msg] + rest,
            IngestStepView::Skip => rest,
        }
    }
}

/// A reader that has stopped passes nothing on.
pub proof fn lemma_stopped_reader_is_silent(items: Seq<StreamItemView>)
    ensures
        delivered(false, items) == Seq::<ChatMessageView>::empty(),
    decreases items.len(),
{
    if items.len() > 0 {
        lemma_stopped_reader_is_silent(items.drop_first());
    }
}

/// A reader posts the notice of disconnection once, as the last thing it
/// passes on, and only when its stream has ended.
pub proof fn lemma_one_notice_at_the_end(items: Seq<StreamItemView>)
    ensures
        (forall|i: int| 0 <= i < items.len() ==> !(#[trigger] items[i] is Ended)) ==> forall|
            j: int,
        |
            0 <= j < delivered(true, items).len() ==> exists|i: int|
                0 <= i < items.len() && items[i] == StreamItemView::Text(
                    Some(#[trigger] delivered(true, items)[j]),
                ),
        (exists|i: int| 0 <= i < items.len() && #[trigger] items[i] is Ended) ==> delivered(
            true,
            items,
        ).len() > 0 && delivered(true, items).last() == disconnected_notice(),
    decreases items.len(),
{
    if items.len() > 0 {
        let rest = items.drop_first();
        if items[0] is Ended {
            lemma_stopped_reader_is_silent(rest);
            assert(delivered(true, items) =~= seq![disconnected_notice()]);
        } else {
            lemma_one_notice_at_the_end(rest);
            let out = delivered(true, items);
            let tail = delivered(true, rest);
            if forall|i: int| 0 <= i < items.len() ==> !(#[trigger] items[i] is Ended) {
                assert forall|i: int| 0 <= i < rest.len() implies !(#[trigger] rest[i] is Ended) by {
                    assert(rest[i] == items[i + 1]);
                }
                assert forall|j: int| 0 <= j < out.len() implies exists|i: int|
                    0 <= i < items.len() && items[i] == StreamItemView::Text(
                        Some(#[trigger] out[j]),
                    ) by {
                    if items[0] matches StreamItemView::Text(Some(msg)) {
                        if j == 0 {
                            assert(items[0] == StreamItemView::Text(Some(out[0])));
                        } else {
                            assert(out[j] == tail[j - 1]);
                            let i = choose|i: int|
                                0 <= i < rest.len() && rest[i] == StreamItemView::Text(
                                    Some(tail[j - 1]),
                                );
                            assert(items[i + 1] == rest[i]);
                        }
                    } else {
                        assert(out == tail);
                        let i = choose|i: int|
                            0 <= i < rest.len() && rest[i] == StreamItemView::Text(Some(tail[j]));
                        assert(items[i + 1] == rest[i]);
                    }
                }
            }
            if exists|i: int| 0 <= i < items.len() && #[trigger] items[i] is Ended {
                let i = choose|i: int| 0 <= i < items.len() && #[trigger] items[i] is Ended;
                assert(rest[i - 1] == items[i]);
                assert(rest[i - 1] is Ended);
                if items[0] matches StreamItemView::Text(Some(msg)) {
                    assert(out.last() == tail.last());
                }
            }
        }
    }
}

/// The reader of one connection.
pub struct IngestTask {
    running: bool,
}

impl IngestTask {
    /// Whether the reader still reads.
    pub closed spec fn running(&self) -> bool {
        self.running
    }

    /// A reader at the start of its stream.
    pub fn new() -> (t: Self)
        ensures
            t.running(),
    {
        IngestTask { running: true }
    }

    /// Whether the reader still reads.
    pub fn is_running(&self) -> (b: bool)
        ensures
            b == self.running(),
    {
        self.running
    }

    /// Takes one item from the stream and says what to do with it.
    pub fn on_item(&mut self, item: StreamItem) -> (step: IngestStep)
        ensures
            step@ == ingest_step(old(self).running(), item@),
            final(self).running() == ingest_running(old(self).running(), item@),
    {
        if !self.running {
            return IngestStep::Skip;
        }
        match item {
            StreamItem::Text(Some(msg)) => IngestStep::Deliver(msg),
            StreamItem::Text(None) => IngestStep::Skip,
            StreamItem::Other => IngestStep::Skip,
            StreamItem::Ended => {
                self.running = false;
                IngestStep::Finish(ChatMessage::disconnected())
            },
        }
    }
}

} // verus!
