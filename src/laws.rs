use vstd::prelude::*;
use crate::event::{is_exit_key, Action, Event, KeyCode, KeyEvent, KeyModifiers, CONTROL};
use crate::state::{run, step, Model};

verus! {

/// A key press that types a character into the input line: a character key
/// that is not Control-C or Control-D.
pub open spec fn types_char(e: Event) -> bool {
    match e {
        Event::Input(k) => k.code is Char && !is_exit_key(k),
        Event::Tick => false,
    }
}

/// The characters that a run of typing events carries, in order.
pub open spec fn typed(events: Seq<Event>) -> Seq<char>
    decreases events.len(),
{
    if events.len() == 0 {
        Seq::empty()
    } else {
        let rest = typed(events.drop_first());
        match events[0] {
            Event::Input(k) => match k.code {
                KeyCode::Char(c) => seq![c] + rest,
                _ => rest,
            },
            Event::Tick => rest,
        }
    }
}

/// Typing a run of characters, with no Enter among them, appends exactly
/// those characters to the input line, in order, and leaves the messages as
/// they were.
pub proof fn typing_appends(s: Model, events: Seq<Event>)
    requires
        forall|i: int| 0 <= i < events.len() ==> types_char(#[trigger] events[i]),
    ensures
        run(s, events) == (Model { input: s.input + typed(events), ..s }),
    decreases events.len(),
{
    if events.len() == 0 {
        assert(s.input + typed(events) =~= s.input);
    } else {
        let e = events[0];
        assert(types_char(e));
        let next = step(s, e).0;
        let rest = events.drop_first();
        assert forall|i: int| 0 <= i < rest.len() implies types_char(#[trigger] rest[i]) by {
            assert(rest[i] == events[i + 1]);
        }
        typing_appends(next, rest);
        if let Event::Input(k) = e {
            if let KeyCode::Char(c) = k.code {
                assert(next.input == s.input.push(c));
                assert(next.input + typed(rest) =~= s.input + typed(events));
            }
        }
    }
}

/// Enter, with any modifiers, commits the whole input line as a new last
/// message, even an empty one, and clears the input line.
pub proof fn enter_commits(s: Model, k: KeyEvent)
    requires
        k.code == KeyCode::Enter,
    ensures
        step(s, Event::Input(k)) == (
        Model { messages: s.messages.push(s.input), input: Seq::empty() },
        Action::Continue,
        ),
{
}

/// Backspace leaves an empty input line alone, and otherwise removes the
/// last character and keeps every other one; the messages never change.
pub proof fn backspace_removes_last(s: Model, k: KeyEvent)
    requires
        k.code == KeyCode::Backspace,
    ensures
        step(s, Event::Input(k)).1 == Action::Continue,
        step(s, Event::Input(k)).0.messages == s.messages,
        s.input.len() == 0 ==> step(s, Event::Input(k)).0 == s,
        s.input.len() > 0 ==> {
            let t = step(s, Event::Input(k)).0.input;
            &&& t.len() == s.input.len() - 1
            &&& forall|i: int| 0 <= i < t.len() ==> t[i] == s.input[i]
        },
{
}

/// A tick, or a key that the editor does not act on, changes nothing, so
/// applying it once or twice gives the same state.
pub proof fn idle_events_change_nothing(s: Model, k: KeyEvent)
    requires
        k.code == KeyCode::Other,
    ensures
        step(s, Event::Tick) == (s, Action::Continue),
        step(s, Event::Input(k)) == (s, Action::Continue),
        step(step(s, Event::Tick).0, Event::Tick) == step(s, Event::Tick),
        step(step(s, Event::Input(k)).0, Event::Input(k)) == step(s, Event::Input(k)),
{
}

/// Control-C and Control-D end the session from any state and leave it as
/// it was; `c` and `d` with no modifier are typed like any other character.
pub proof fn control_c_and_d_exit(s: Model, c: char, bits: u8)
    requires
        c == 'c' || c == 'd',
    ensures
        bits == CONTROL ==> step(
            s,
            Event::Input(KeyEvent { code: KeyCode::Char(c), modifiers: KeyModifiers { bits } }),
        ) == (s, Action::Exit),
        bits == 0 ==> step(
            s,
            Event::Input(KeyEvent { code: KeyCode::Char(c), modifiers: KeyModifiers { bits } }),
        ) == (Model { input: s.input.push(c), ..s }, Action::Continue),
{
}

} // verus!
