use vstd::prelude::*;
use crate::event::{is_exit, is_exit_key, Action, Event, KeyCode};
use crate::text::{pop_char, push_char};

verus! {

/// The abstract value of the editor: the committed lines, oldest first, and
/// the line being typed.
pub ghost struct Model {
    pub messages: Seq<Seq<char>>,
    pub input: Seq<char>,
}

/// The state at program start: no messages and an empty input line.
pub open spec fn initial() -> Model {
    Model { messages: Seq::empty(), input: Seq::empty() }
}

/// The effect of one event on the editor, and whether the loop goes on.
pub open spec fn step(s: Model, e: Event) -> (Model, Action) {
    match e {
        Event::Tick => (s, Action::Continue),
        Event::Input(k) => {
            if is_exit_key(k) {
                (s, Action::Exit)
            } else {
                match k.code {
                    KeyCode::Enter => (
                        Model { messages: s.messages.push(s.input), input: Seq::empty() },
                        Action::Continue,
                    ),
                    KeyCode::Char(c) => (Model { input: s.input.push(c), ..s }, Action::Continue),
                    KeyCode::Backspace => {
                        if s.input.len() == 0 {
                            (s, Action::Continue)
                        } else {
                            (Model { input: s.input.drop_last(), ..s }, Action::Continue)
                        }
                    },
                    KeyCode::Other => (s, Action::Continue),
                }
            }
        },
    }
}

/// The state after feeding `events` one by one, from the first.
pub open spec fn run(s: Model, events: Seq<Event>) -> Model
    decreases events.len(),
{
    if events.len() == 0 {
        s
    } else {
        run(step(s, events[0]).0, events.drop_first())
    }
}

/// The committed messages and the line being typed.
pub struct State {
    pub messages: Vec<String>,
    pub input: String,
}

impl View for State {
    type V = Model;

    open spec fn view(&self) -> Model {
        Model { messages: self.messages@.map_values(|m: String| m@), input: self.input@ }
    }
}

impl State {
    /// An empty state: no messages, nothing typed.
    pub fn new() -> (r: State)
        ensures
            r@ == initial(),
    {
        let r = State { messages: Vec::new(), input: String::new() };
        assert(r@.messages =~= Seq::<Seq<char>>::empty());
        r
    }

    /// Applies one event to the state and says whether the loop should go on.
    pub fn apply(&mut self, event: &Event) -> (r: Action)
        ensures
            (final(self)@, r) == step(old(self)@, *event),
    {
        match event {
            Event::Tick => Action::Continue,
            Event::Input(k) => {
                if is_exit(k) {
                    return Action::Exit;
                }
                match k.code {
                    KeyCode::Enter => {
                        let mut line = String::new();
                        std::mem::swap(&mut self.input, &mut line);
                        self.messages.push(line);
                        assert(self@.messages =~= old(self)@.messages.push(old(self)@.input));
                    },
                    KeyCode::Char(c) => {
                        push_char(&mut self.input, c);
                        assert(self@.messages =~= old(self)@.messages);
                    },
                    KeyCode::Backspace => {
                        let _ = pop_char(&mut self.input);
                        assert(self@.messages =~= old(self)@.messages);
                    },
                    KeyCode::Other => {},
                }
                Action::Continue
            },
        }
    }
}

impl Default for State {
    fn default() -> (r: State)
        ensures
            r@ == initial(),
    {
        State::new()
    }
}

} // verus!
