//! A whole session: the event loop run over a recorded sequence of events,
//! and what holds of every such run.

use vstd::prelude::*;
use crate::state::{event_quits, event_step, App, AppState, AppView, Event, Key, Signal};

verus! {

/// The state after every event of `events` has been handled in turn,
/// starting in state `s`.
pub open spec fn state_after(s: AppView, events: Seq<Event>) -> AppView
    decreases events.len(),
{
    if events.len() == 0 {
        s
    } else {
        event_step(state_after(s, events.drop_last()), events.last())
    }
}

/// Whether the event at position `i` ends a session that started in state
/// `s` and has handled the events before it.
pub open spec fn quits_at(s: AppView, events: Seq<Event>, i: int) -> bool {
    0 <= i < events.len() && event_quits(state_after(s, events.take(i)), events[i])
}

/// The press of the key that types `c`.
pub open spec fn press(c: char) -> Event {
    Event::Key(Key::Char(c))
}

/// The key presses that type `text`, one character each.
pub open spec fn typed(text: Seq<char>) -> Seq<Event> {
    Seq::new(text.len(), |i: int| press(text[i]))
}

/// Runs the event loop over `events`: each event is handled in turn until
/// one of them quits. Returns the position of the event that quit, or `None`
/// when the events ran out first; `app` is left in the state in which the
/// loop stopped. The events after the one that quit are not looked at.
pub fn run_app(app: &mut App, events: &Vec<Event>) -> (quit: Option<usize>)
    ensures
        match quit {
            Some(i) => {
                &&& quits_at(old(app)@, events@, i as int)
                &&& forall|j: int| 0 <= j < i ==> !quits_at(old(app)@, events@, j)
                &&& final(app)@ == state_after(old(app)@, events@.take(i as int))
            },
            None => {
                &&& forall|j: int| 0 <= j < events@.len() ==> !quits_at(old(app)@, events@, j)
                &&& final(app)@ == state_after(old(app)@, events@)
            },
        },
{
    let mut i: usize = 0;
    proof {
        assert(events@.take(0) =~= Seq::<Event>::empty());
    }
    while i < events.len()
        invariant
            i <= events.len(),
            app@ == state_after(old(app)@, events@.take(i as int)),
            forall|j: int| 0 <= j < i ==> !quits_at(old(app)@, events@, j),
        decreases events.len() - i,
    {
        let signal = app.handle_event(events[i]);
        match signal {
            Signal::Quit => {
                return Some(i);
            },
            Signal::Continue => {},
        }
        proof {
            let next = events@.take(i + 1);
            assert(next.drop_last() =~= events@.take(i as int));
            assert(next.last() == events@[i as int]);
        }
        i += 1;
    }
    proof {
        assert(events@.take(i as int) =~= events@);
    }
    None
}

/// Handling a prefix of the events and then one more gives the state after
/// the longer prefix.
pub proof fn lemma_state_after_take(s: AppView, events: Seq<Event>, i: int)
    requires
        0 <= i < events.len(),
    ensures
        state_after(s, events.take(i + 1)) == event_step(
            state_after(s, events.take(i)),
            events[i],
        ),
{
    let next = events.take(i + 1);
    assert(next.drop_last() =~= events.take(i));
    assert(next.last() == events[i]);
}

/// While no `e` is pressed, a session in normal mode stays as it is, and it
/// ends at a press of `q` and at no other event.
pub proof fn lemma_quit_only_on_q(s: AppView, events: Seq<Event>)
    requires
        s.mode == AppState::Normal,
        forall|i: int| 0 <= i < events.len() ==> events[i] != Event::Key(Key::Char('e')),
    ensures
        forall|i: int| 0 <= i <= events.len() ==> #[trigger] state_after(s, events.take(i)) == s,
        forall|i: int|
            0 <= i < events.len() ==> (#[trigger] quits_at(s, events, i) <==> events[i]
                == Event::Key(Key::Char('q'))),
{
    assert forall|i: int| 0 <= i <= events.len() implies #[trigger] state_after(
        s,
        events.take(i),
    ) == s by {
        lemma_unchanged_without_e(s, events, i);
    }
}

proof fn lemma_unchanged_without_e(s: AppView, events: Seq<Event>, i: int)
    requires
        s.mode == AppState::Normal,
        forall|k: int| 0 <= k < events.len() ==> events[k] != Event::Key(Key::Char('e')),
        0 <= i <= events.len(),
    ensures
        state_after(s, events.take(i)) == s,
    decreases i,
{
    if i == 0 {
        assert(events.take(0) =~= Seq::<Event>::empty());
    } else {
        lemma_unchanged_without_e(s, events, i - 1);
        lemma_state_after_take(s, events, i - 1);
    }
}

/// Typing in edit mode appends to the line and changes nothing else.
pub proof fn lemma_typing_appends(s: AppView, text: Seq<char>)
    requires
        s.mode == AppState::EditMode,
    ensures
        state_after(s, typed(text)) == (AppView { input: s.input + text, ..s }),
        forall|i: int| 0 <= i < text.len() ==> !quits_at(s, typed(text), i),
    decreases text.len(),
{
    if text.len() == 0 {
        assert(s.input + text =~= s.input);
    } else {
        let shorter = text.drop_last();
        lemma_typing_appends(s, shorter);
        assert(typed(text).drop_last() =~= typed(shorter));
        assert(s.input + text =~= (s.input + shorter).push(text.last()));
        assert forall|i: int| 0 <= i < text.len() implies !quits_at(s, typed(text), i) by {
            let prefix = text.take(i);
            lemma_typing_appends(s, prefix);
            assert(typed(text).take(i) =~= typed(prefix));
        }
    }
}

/// A line typed character by character in edit mode and ended with Enter
/// adds exactly one message at the end of the log, made of what the line
/// held before followed by what was typed, and leaves the line empty; the
/// session stays in edit mode and does not end. From an empty line the
/// message is the typed text itself, also when that is empty.
pub proof fn lemma_typed_line_is_committed(s: AppView, text: Seq<char>)
    requires
        s.mode == AppState::EditMode,
    ensures
        state_after(s, typed(text).push(Event::Key(Key::Enter))) == (AppView {
            mode: AppState::EditMode,
            input: Seq::empty(),
            messages: s.messages.push(s.input + text),
        }),
        s.input.len() == 0 ==> state_after(s, typed(text).push(Event::Key(Key::Enter))).messages
            == s.messages.push(text),
        forall|i: int|
            0 <= i <= text.len() ==> !quits_at(s, typed(text).push(Event::Key(Key::Enter)), i),
{
    let keys = typed(text).push(Event::Key(Key::Enter));
    lemma_typing_appends(s, text);
    assert(keys.drop_last() =~= typed(text));
    if s.input.len() == 0 {
        assert(s.input + text =~= text);
    }
    assert forall|i: int| 0 <= i <= text.len() implies !quits_at(s, keys, i) by {
        let prefix = text.take(i);
        lemma_typing_appends(s, prefix);
        assert(keys.take(i) =~= typed(prefix));
    }
}

} // verus!
