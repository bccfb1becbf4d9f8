//! Turns the fragments that the generation backend streams into chat
//! messages.
//!
//! What the model streams before it has ended its reasoning is held back.
//! After that the fragments are gathered, and a chat message goes out each
//! time a sentence ends a paragraph. The stream ends with a last message that
//! carries what is left; if the answer takes too long, a message that says so
//! goes out before it.

use crate::text::{contains_text, str_contains, str_eq};
use vstd::prelude::*;
use vstd::string::*;

verus! {

/// The marker that ends the model's reasoning.
pub const THINK_END: &'static str = "</think>";

/// A fragment that is nothing but a paragraph break.
pub const PARAGRAPH_BREAK: &'static str = "\n\n";

/// A fragment that ends a sentence and the paragraph with it.
pub const SENTENCE_BREAK: &'static str = ".\n\n";

/// The message that is sent when the answer takes too long.
pub const TIMEOUT_REPLY: &'static str = "Timeout: I'm sorry, I'm taking too long to respond";

/// Seconds after which an answer has taken too long.
pub const IDLE_TIMEOUT_SECS: u64 = 30;

/// Seconds between two signals that the agent is still composing.
pub const TYPING_INTERVAL_SECS: u64 = 3;

/// What happens while an answer is streamed.
#[derive(Debug, PartialEq, Eq)]
pub enum StreamEvent {
    /// The backend has sent a fragment of text.
    Fragment(String),
    /// The backend has sent its last fragment.
    End,
    /// The stream has broken off with an error.
    Failed,
    /// The interval between two signals of composing has passed.
    Tick,
    /// The answer has taken too long.
    TimedOut,
}

/// What a `StreamEvent` holds.
pub ghost enum StreamEventView {
    Fragment(Seq<char>),
    End,
    Failed,
    Tick,
    TimedOut,
}

impl View for StreamEvent {
    type V = StreamEventView;

    open spec fn view(&self) -> StreamEventView {
        match self {
            StreamEvent::Fragment(text) => StreamEventView::Fragment(text@),
            StreamEvent::End => StreamEventView::End,
            StreamEvent::Failed => StreamEventView::Failed,
            StreamEvent::Tick => StreamEventView::Tick,
            StreamEvent::TimedOut => StreamEventView::TimedOut,
        }
    }
}

/// What the chunker wants the remote party to get.
#[derive(Debug, PartialEq, Eq)]
pub enum Emission {
    /// A chat message with this text
    Chat(String),
    /// The signal that the agent is composing
    Typing,
    /// The signal that the agent is there
    Presence,
}

/// What an `Emission` holds.
pub ghost enum EmissionView {
    Chat(Seq<char>),
    Typing,
    Presence,
}

impl View for Emission {
    type V = EmissionView;

    open spec fn view(&self) -> EmissionView {
        match self {
            Emission::Chat(text) => EmissionView::Chat(text@),
            Emission::Typing => EmissionView::Typing,
            Emission::Presence => EmissionView::Presence,
        }
    }
}

/// The views of a list of emissions.
pub open spec fn emission_views(emissions: Seq<Emission>) -> Seq<EmissionView> {
    Seq::new(emissions.len(), |i: int| emissions[i]@)
}

/// The state of the chunker while one answer is streamed.
#[derive(Debug, PartialEq, Eq)]
pub struct Chunker {
    visible: bool,
    finished: bool,
    buffer: String,
}

/// What a `Chunker` holds.
pub ghost struct ChunkerView {
    /// Whether the end of the reasoning has been seen
    pub visible: bool,
    /// Whether the stream is over
    pub finished: bool,
    /// The text gathered since the last chat message
    pub buffer: Seq<char>,
}

impl View for Chunker {
    type V = ChunkerView;

    closed spec fn view(&self) -> ChunkerView {
        ChunkerView { visible: self.visible, finished: self.finished, buffer: self.buffer@ }
    }
}

/// The chunker at the start of an answer: nothing is visible yet, and
/// nothing is gathered.
pub open spec fn chunker_start() -> ChunkerView {
    ChunkerView { visible: false, finished: false, buffer: Seq::empty() }
}

/// The chunker after a fragment.
///
/// While the reasoning goes on the fragment is dropped; one that holds the
/// end marker makes what follows visible, and is itself still dropped. Of
/// the visible fragments a bare paragraph break is dropped, a sentence break
/// empties the buffer, and anything else is added to the buffer.
pub open spec fn after_fragment(state: ChunkerView, fragment: Seq<char>) -> ChunkerView {
    if !state.visible {
        ChunkerView { visible: contains_text(fragment, THINK_END@), ..state }
    } else if fragment == PARAGRAPH_BREAK@ {
        state
    } else if fragment == SENTENCE_BREAK@ {
        ChunkerView { buffer: Seq::empty(), ..state }
    } else {
        ChunkerView { buffer: state.buffer + fragment, ..state }
    }
}

/// What goes out on a fragment: on a visible sentence break a chat message
/// with the buffer and the break, and nothing otherwise.
pub open spec fn emitted_on_fragment(state: ChunkerView, fragment: Seq<char>) -> Seq<
    EmissionView,
> {
    if state.visible && fragment != PARAGRAPH_BREAK@ && fragment == SENTENCE_BREAK@ {
        seq![EmissionView::Chat(state.buffer + fragment)]
    } else {
        Seq::empty()
    }
}

/// The chunker after an event. Once the stream is over nothing changes any
/// more.
pub open spec fn after_event(state: ChunkerView, event: StreamEventView) -> ChunkerView {
    if state.finished {
        state
    } else {
        match event {
            StreamEventView::Fragment(fragment) => after_fragment(state, fragment),
            StreamEventView::End => ChunkerView { finished: true, buffer: Seq::empty(), ..state },
            StreamEventView::Failed => ChunkerView {
                finished: true,
                buffer: Seq::empty(),
                ..state
            },
            StreamEventView::Tick => state,
            StreamEventView::TimedOut => ChunkerView {
                finished: true,
                buffer: Seq::empty(),
                ..state
            },
        }
    }
}

/// What goes out on an event.
///
/// When the stream ends, breaks off or has taken too long, what is left in
/// the buffer goes out as the last chat message, even if nothing is left.
/// When the answer has taken too long, the message that says so goes out
/// first. On a tick the remote party is told that the agent is composing,
/// and that it is there. Once the stream is over nothing goes out any more.
pub open spec fn emitted(state: ChunkerView, event: StreamEventView) -> Seq<EmissionView> {
    if state.finished {
        Seq::empty()
    } else {
        match event {
            StreamEventView::Fragment(fragment) => emitted_on_fragment(state, fragment),
            StreamEventView::End => seq![EmissionView::Chat(state.buffer)],
            StreamEventView::Failed => seq![EmissionView::Chat(state.buffer)],
            StreamEventView::Tick => seq![EmissionView::Typing, EmissionView::Presence],
            StreamEventView::TimedOut => seq![
                EmissionView::Chat(TIMEOUT_REPLY@),
                EmissionView::Chat(state.buffer),
            ],
        }
    }
}

impl Chunker {
    /// A chunker for a new answer.
    pub fn new() -> (chunker: Self)
        ensures
            chunker@ == chunker_start(),
    {
        Chunker { visible: false, finished: false, buffer: String::new() }
    }

    /// Whether the stream is over.
    pub fn is_finished(&self) -> (finished: bool)
        ensures
            finished == self@.finished,
    {
        self.finished
    }

    /// Whether the end of the reasoning has been seen.
    pub fn is_visible(&self) -> (visible: bool)
        ensures
            visible == self@.visible,
    {
        self.visible
    }

    /// The text gathered since the last chat message.
    pub fn buffered(&self) -> (text: &str)
        ensures
            text@ == self@.buffer,
    {
        self.buffer.as_str()
    }

    /// Takes the text out of the buffer and leaves it empty.
    fn take_buffer(&mut self) -> (text: String)
        ensures
            text@ == old(self)@.buffer,
            final(self)@ == (ChunkerView { buffer: Seq::empty(), ..old(self)@ }),
    {
        let mut text = String::new();
        core::mem::swap(&mut self.buffer, &mut text);
        text
    }

    /// Takes in a fragment of the stream that is not over.
    fn on_fragment(&mut self, fragment: &str) -> (emissions: Vec<Emission>)
        requires
            !old(self)@.finished,
        ensures
            final(self)@ == after_fragment(old(self)@, fragment@),
            emission_views(emissions@) == emitted_on_fragment(old(self)@, fragment@),
    {
        let mut emissions: Vec<Emission> = Vec::new();
        if !self.visible {
            self.visible = str_contains(fragment, THINK_END);
        } else if str_eq(fragment, PARAGRAPH_BREAK) {
        } else if str_eq(fragment, SENTENCE_BREAK) {
            let text = self.take_buffer().concat(fragment);
            emissions.push(Emission::Chat(text));
        } else {
            self.buffer.append(fragment);
        }
        assert(emission_views(emissions@) =~= emitted_on_fragment(old(self)@, fragment@));
        emissions
    }

    /// Takes in an event of the stream and hands back what is to go out.
    pub fn on_event(&mut self, event: &StreamEvent) -> (emissions: Vec<Emission>)
        ensures
            final(self)@ == after_event(old(self)@, event@),
            emission_views(emissions@) == emitted(old(self)@, event@),
    {
        let mut emissions: Vec<Emission> = Vec::new();
        if self.finished {
            assert(emission_views(emissions@) =~= emitted(old(self)@, event@));
            return emissions;
        }
        match event {
            StreamEvent::Fragment(fragment) => {
                return self.on_fragment(fragment.as_str());
            },
            StreamEvent::End => {
                emissions.push(Emission::Chat(self.take_buffer()));
                self.finished = true;
            },
            StreamEvent::Failed => {
                emissions.push(Emission::Chat(self.take_buffer()));
                self.finished = true;
            },
            StreamEvent::Tick => {
                emissions.push(Emission::Typing);
                emissions.push(Emission::Presence);
            },
            StreamEvent::TimedOut => {
                emissions.push(Emission::Chat(TIMEOUT_REPLY.to_string()));
                emissions.push(Emission::Chat(self.take_buffer()));
                self.finished = true;
            },
        }
        assert(emission_views(emissions@) =~= emitted(old(self)@, event@));
        emissions
    }
}

// ---------------------------------------------------------------------------
//  Whole streams
// ---------------------------------------------------------------------------
/// The chunker after a run of events.
pub open spec fn after_events(state: ChunkerView, events: Seq<StreamEventView>) -> ChunkerView
    decreases events.len(),
{
    if events.len() == 0 {
        state
    } else {
        after_event(after_events(state, events.drop_last()), events.last())
    }
}

/// Everything that goes out in a run of events, in order.
pub open spec fn emitted_by(state: ChunkerView, events: Seq<StreamEventView>) -> Seq<
    EmissionView,
>
    decreases events.len(),
{
    if events.len() == 0 {
        Seq::empty()
    } else {
        emitted_by(state, events.drop_last()) + emitted(
            after_events(state, events.drop_last()),
            events.last(),
        )
    }
}

/// The texts of the chat messages among `emissions`, in order.
pub open spec fn chat_texts(emissions: Seq<EmissionView>) -> Seq<Seq<char>>
    decreases emissions.len(),
{
    if emissions.len() == 0 {
        Seq::empty()
    } else {
        match emissions.last() {
            EmissionView::Chat(text) => chat_texts(emissions.drop_last()).push(text),
            _ => chat_texts(emissions.drop_last()),
        }
    }
}

/// Whether an event leaves a sentence unfinished: it is a tick, or a
/// fragment other than the sentence break.
pub open spec fn completes_nothing(event: StreamEventView) -> bool {
    match event {
        StreamEventView::Fragment(fragment) => fragment != SENTENCE_BREAK@,
        StreamEventView::Tick => true,
        _ => false,
    }
}

/// The chat texts of two runs of emissions, one after the other.
pub proof fn lemma_chat_texts_concat(first: Seq<EmissionView>, second: Seq<EmissionView>)
    ensures
        chat_texts(first + second) == chat_texts(first) + chat_texts(second),
    decreases second.len(),
{
    if second.len() == 0 {
        assert(first + second =~= first);
        assert(chat_texts(first) + chat_texts(second) =~= chat_texts(first));
    } else {
        assert((first + second).drop_last() =~= first + second.drop_last());
        assert((first + second).last() == second.last());
        lemma_chat_texts_concat(first, second.drop_last());
        match second.last() {
            EmissionView::Chat(text) => {
                assert(chat_texts(first + second) =~= chat_texts(first) + chat_texts(second));
            },
            _ => {},
        }
    }
}

/// As long as no sentence is completed and the stream goes on, no chat
/// message goes out.
pub proof fn lemma_silent_while_unfinished(state: ChunkerView, events: Seq<StreamEventView>)
    requires
        !state.finished,
        forall|i: int| 0 <= i < events.len() ==> completes_nothing(#[trigger] events[i]),
    ensures
        !after_events(state, events).finished,
        chat_texts(emitted_by(state, events)) == Seq::<Seq<char>>::empty(),
    decreases events.len(),
{
    if events.len() > 0 {
        let before = events.drop_last();
        assert forall|i: int| 0 <= i < before.len() implies completes_nothing(
            #[trigger] before[i],
        ) by {
            assert(before[i] == events[i]);
        }
        lemma_silent_while_unfinished(state, before);
        assert(completes_nothing(events[events.len() - 1]));
        let last = emitted(after_events(state, before), events.last());
        lemma_chat_texts_concat(emitted_by(state, before), last);
        match events.last() {
            StreamEventView::Tick => {
                reveal_with_fuel(chat_texts, 3);
                assert(last.drop_last() =~= seq![EmissionView::Typing]);
                assert(chat_texts(last) =~= Seq::<Seq<char>>::empty());
            },
            _ => {
                assert(last =~= Seq::<EmissionView>::empty());
            },
        }
    }
}

/// An answer that takes too long without ever completing a sentence yields
/// exactly one message that says so, and no chat message before it: whatever
/// fragments and ticks came before, none of them made a chat message go out.
/// The only chat message that follows is the last one, with what had been
/// gathered until then.
pub proof fn lemma_timeout_without_sentence(events: Seq<StreamEventView>)
    requires
        forall|i: int| 0 <= i < events.len() ==> completes_nothing(#[trigger] events[i]),
    ensures
        chat_texts(emitted_by(chunker_start(), events)) == Seq::<Seq<char>>::empty(),
        emitted(after_events(chunker_start(), events), StreamEventView::TimedOut) == seq![
            EmissionView::Chat(TIMEOUT_REPLY@),
            EmissionView::Chat(after_events(chunker_start(), events).buffer),
        ],
        chat_texts(emitted_by(chunker_start(), events.push(StreamEventView::TimedOut))) == seq![
            TIMEOUT_REPLY@,
            after_events(chunker_start(), events).buffer,
        ],
        after_events(chunker_start(), events.push(StreamEventView::TimedOut)).finished,
{
    let all = events.push(StreamEventView::TimedOut);
    assert(all.drop_last() =~= events);
    lemma_silent_while_unfinished(chunker_start(), events);
    let gathered = after_events(chunker_start(), events).buffer;
    let last = emitted(after_events(chunker_start(), events), StreamEventView::TimedOut);
    assert(last =~= seq![EmissionView::Chat(TIMEOUT_REPLY@), EmissionView::Chat(gathered)]);
    lemma_chat_texts_concat(emitted_by(chunker_start(), events), last);
    assert(chat_texts(last) =~= seq![TIMEOUT_REPLY@, gathered]) by {
        reveal_with_fuel(chat_texts, 3);
        assert(last.drop_last() =~= seq![EmissionView::Chat(TIMEOUT_REPLY@)]);
        assert(last.drop_last().drop_last() =~= Seq::<EmissionView>::empty());
    }
}

/// Once the stream is over nothing goes out and nothing changes, whatever
/// happens.
pub proof fn lemma_finished_is_final(state: ChunkerView, events: Seq<StreamEventView>)
    requires
        state.finished,
    ensures
        after_events(state, events) == state,
        emitted_by(state, events) == Seq::<EmissionView>::empty(),
    decreases events.len(),
{
    if events.len() > 0 {
        lemma_finished_is_final(state, events.drop_last());
    }
}

} // verus!
