//! The state of keyboard and mouse, kept up to date from input events.

use std::collections::HashMap;
use vstd::prelude::*;
use crate::key::{Button, Event, Key};

verus! {

broadcast use vstd::std_specs::hash::group_hash_axioms;

/// What an [`InputState`] knows.
///
/// `keys_down` and `buttons_down` tell what is held. `keys_just_pressed` and
/// `buttons_just_pressed` tell what went down, and has not gone up again,
/// since the state was last cleared. The wheel has a running total and the
/// travel of its latest turn since the state was last cleared.
pub struct InputView {
    pub keys_down: Set<Key>,
    pub keys_just_pressed: Set<Key>,
    pub buttons_down: Set<Button>,
    pub buttons_just_pressed: Set<Button>,
    pub mouse_position: (i32, i32),
    pub mouse_wheel: i64,
    pub mouse_wheel_delta: i32,
}

/// `total + delta`, held at the ends of the range of `i64`.
pub open spec fn wheel_sum(total: i64, delta: i32) -> i64 {
    if total + delta > i64::MAX {
        i64::MAX
    } else if total + delta < i64::MIN {
        i64::MIN
    } else {
        (total + delta) as i64
    }
}

impl InputView {
    /// The state before any event: nothing held, the mouse at the origin,
    /// the wheel at rest.
    pub open spec fn initial() -> InputView {
        InputView {
            keys_down: Set::empty(),
            keys_just_pressed: Set::empty(),
            buttons_down: Set::empty(),
            buttons_just_pressed: Set::empty(),
            mouse_position: (0, 0),
            mouse_wheel: 0,
            mouse_wheel_delta: 0,
        }
    }

    /// The state at the start of a frame: what happened within the last
    /// frame is forgotten, what is held stays held, the mouse stays where it
    /// is and the wheel keeps its total.
    pub open spec fn cleared(self) -> InputView {
        InputView {
            keys_just_pressed: Set::empty(),
            buttons_just_pressed: Set::empty(),
            mouse_wheel_delta: 0,
            ..self
        }
    }

    /// The state after one event.
    pub open spec fn after(self, event: Event) -> InputView {
        match event {
            Event::KeyPressed { code } => InputView {
                keys_down: self.keys_down.insert(code),
                keys_just_pressed: self.keys_just_pressed.insert(code),
                ..self
            },
            Event::KeyReleased { code } => InputView {
                keys_down: self.keys_down.remove(code),
                keys_just_pressed: self.keys_just_pressed.remove(code),
                ..self
            },
            Event::MouseButtonPressed { button } => InputView {
                buttons_down: self.buttons_down.insert(button),
                buttons_just_pressed: self.buttons_just_pressed.insert(button),
                ..self
            },
            Event::MouseButtonReleased { button } => InputView {
                buttons_down: self.buttons_down.remove(button),
                buttons_just_pressed: self.buttons_just_pressed.remove(button),
                ..self
            },
            Event::MouseWheelScrolled { delta } => InputView {
                mouse_wheel: wheel_sum(self.mouse_wheel, delta),
                mouse_wheel_delta: delta,
                ..self
            },
            Event::MouseMoved { x, y } => InputView { mouse_position: (x, y), ..self },
            Event::Closed => self,
            Event::Other => self,
        }
    }

    /// The state after the events of `events`, first to last.
    pub open spec fn after_all(self, events: Seq<Event>) -> InputView
        decreases events.len(),
    {
        if events.len() == 0 {
            self
        } else {
            self.after_all(events.drop_last()).after(events.last())
        }
    }

    /// The state after a frame in which `events` were handled: the state is
    /// cleared first, then the events are taken in, first to last.
    pub open spec fn frame(self, events: Seq<Event>) -> InputView {
        self.cleared().after_all(events)
    }
}

/// Whether `event` occurs in `events`.
pub open spec fn occurs(events: Seq<Event>, event: Event) -> bool {
    exists|i: int| 0 <= i < events.len() && events[i] == event
}

/// A key that counts as just pressed after some events did so before them,
/// or one of them is a press of it. The same holds of a button.
pub proof fn lemma_just_pressed_origin(before: InputView, events: Seq<Event>)
    ensures
        forall|key: Key| #[trigger]
            before.after_all(events).keys_just_pressed.contains(key)
                ==> before.keys_just_pressed.contains(key) || occurs(
                events,
                Event::KeyPressed { code: key },
            ),
        forall|button: Button| #[trigger]
            before.after_all(events).buttons_just_pressed.contains(button)
                ==> before.buttons_just_pressed.contains(button) || occurs(
                events,
                Event::MouseButtonPressed { button },
            ),
    decreases events.len(),
{
    if events.len() > 0 {
        let earlier = events.drop_last();
        lemma_just_pressed_origin(before, earlier);
        assert forall|key: Key| #[trigger]
            before.after_all(events).keys_just_pressed.contains(key) implies before.keys_just_pressed.contains(
            key,
        ) || occurs(events, Event::KeyPressed { code: key }) by {
            let press = Event::KeyPressed { code: key };
            if events.last() == press {
                assert(events[events.len() - 1] == press);
            } else {
                assert(before.after_all(earlier).keys_just_pressed.contains(key));
                if !before.keys_just_pressed.contains(key) {
                    let i = choose|i: int| 0 <= i < earlier.len() && earlier[i] == press;
                    assert(events[i] == press);
                }
            }
        }
        assert forall|button: Button| #[trigger]
            before.after_all(events).buttons_just_pressed.contains(button) implies before.buttons_just_pressed.contains(
            button,
        ) || occurs(events, Event::MouseButtonPressed { button }) by {
            let press = Event::MouseButtonPressed { button };
            if events.last() == press {
                assert(events[events.len() - 1] == press);
            } else {
                assert(before.after_all(earlier).buttons_just_pressed.contains(button));
                if !before.buttons_just_pressed.contains(button) {
                    let i = choose|i: int| 0 <= i < earlier.len() && earlier[i] == press;
                    assert(events[i] == press);
                }
            }
        }
    }
}

/// A key that is held stays held over events none of which releases it, and
/// so does a button.
pub proof fn lemma_held_until_released(before: InputView, events: Seq<Event>)
    ensures
        forall|key: Key| #[trigger]
            before.keys_down.contains(key) && !occurs(events, Event::KeyReleased { code: key })
                ==> before.after_all(events).keys_down.contains(key),
        forall|button: Button| #[trigger]
            before.buttons_down.contains(button) && !occurs(
                events,
                Event::MouseButtonReleased { button },
            ) ==> before.after_all(events).buttons_down.contains(button),
    decreases events.len(),
{
    if events.len() > 0 {
        let earlier = events.drop_last();
        lemma_held_until_released(before, earlier);
        assert forall|key: Key| #[trigger]
            before.keys_down.contains(key) && !occurs(
                events,
                Event::KeyReleased { code: key },
            ) implies before.after_all(events).keys_down.contains(key) by {
            let release = Event::KeyReleased { code: key };
            assert(events[events.len() - 1] != release);
            assert forall|i: int| 0 <= i < earlier.len() implies earlier[i] != release by {
                assert(events[i] != release);
            }
        }
        assert forall|button: Button| #[trigger]
            before.buttons_down.contains(button) && !occurs(
                events,
                Event::MouseButtonReleased { button },
            ) implies before.after_all(events).buttons_down.contains(button) by {
            let release = Event::MouseButtonReleased { button };
            assert(events[events.len() - 1] != release);
            assert forall|i: int| 0 <= i < earlier.len() implies earlier[i] != release by {
                assert(events[i] != release);
            }
        }
    }
}

/// A key counts as just pressed after a frame only if a press of it was
/// among the frame's events.
pub proof fn lemma_just_pressed_only_in_frame_of_press(
    before: InputView,
    events: Seq<Event>,
    key: Key,
)
    requires
        before.frame(events).keys_just_pressed.contains(key),
    ensures
        occurs(events, Event::KeyPressed { code: key }),
{
    lemma_just_pressed_origin(before.cleared(), events);
}

/// A key that went down in one frame no longer counts as just pressed after
/// the next, unless it is pressed again; and it still counts as held, unless
/// it is released.
pub proof fn lemma_just_pressed_lasts_one_frame(
    before: InputView,
    first: Seq<Event>,
    second: Seq<Event>,
    key: Key,
)
    requires
        before.frame(first).keys_just_pressed.contains(key),
        !occurs(second, Event::KeyPressed { code: key }),
    ensures
        !before.frame(first).frame(second).keys_just_pressed.contains(key),
        !occurs(second, Event::KeyReleased { code: key }) ==> before.frame(first).frame(
            second,
        ).keys_down.contains(key),
{
    let held = before.frame(first);
    lemma_just_pressed_origin(held.cleared(), second);
    lemma_just_pressed_implies_down(before.cleared(), first);
    lemma_held_until_released(held.cleared(), second);
    assert(held.cleared().keys_down.contains(key));
}

/// What counts as just pressed is held, after any events, if it was so before them.
pub proof fn lemma_just_pressed_implies_down(before: InputView, events: Seq<Event>)
    requires
        before.keys_just_pressed.subset_of(before.keys_down),
        before.buttons_just_pressed.subset_of(before.buttons_down),
    ensures
        before.after_all(events).keys_just_pressed.subset_of(before.after_all(events).keys_down),
        before.after_all(events).buttons_just_pressed.subset_of(
            before.after_all(events).buttons_down,
        ),
    decreases events.len(),
{
    if events.len() > 0 {
        lemma_just_pressed_implies_down(before, events.drop_last());
    }
}

/// A mouse button counts as just pressed after a frame only if a press of it
/// was among the frame's events.
pub proof fn lemma_button_just_pressed_only_in_frame_of_press(
    before: InputView,
    events: Seq<Event>,
    button: Button,
)
    requires
        before.frame(events).buttons_just_pressed.contains(button),
    ensures
        occurs(events, Event::MouseButtonPressed { button }),
{
    lemma_just_pressed_origin(before.cleared(), events);
}

/// A mouse button that went down in one frame no longer counts as just
/// pressed after the next, unless it is pressed again; and it still counts as
/// held, unless it is released.
pub proof fn lemma_button_just_pressed_lasts_one_frame(
    before: InputView,
    first: Seq<Event>,
    second: Seq<Event>,
    button: Button,
)
    requires
        before.frame(first).buttons_just_pressed.contains(button),
        !occurs(second, Event::MouseButtonPressed { button }),
    ensures
        !before.frame(first).frame(second).buttons_just_pressed.contains(button),
        !occurs(second, Event::MouseButtonReleased { button }) ==> before.frame(first).frame(
            second,
        ).buttons_down.contains(button),
{
    let held = before.frame(first);
    lemma_just_pressed_origin(held.cleared(), second);
    lemma_just_pressed_implies_down(before.cleared(), first);
    lemma_held_until_released(held.cleared(), second);
    assert(held.cleared().buttons_down.contains(button));
}

/// The keys and buttons that are held, those that went down within the
/// current frame, the mouse position and the wheel.
#[derive(Clone, Debug)]
pub struct InputState {
    key_state: HashMap<u8, bool>,
    key_state_delta: HashMap<u8, bool>,
    mouse_state: HashMap<u8, bool>,
    mouse_state_delta: HashMap<u8, bool>,
    mouse_x: i32,
    mouse_y: i32,
    mouse_wheel_state: i64,
    mouse_wheel_state_delta: i32,
}

/// The keys that `table` maps to `true`.
spec fn keys_set(table: Map<u8, bool>) -> Set<Key> {
    Set::new(|key: Key| table.contains_key(key.spec_code()) && table[key.spec_code()])
}

/// The buttons that `table` maps to `true`.
spec fn buttons_set(table: Map<u8, bool>) -> Set<Button> {
    Set::new(|button: Button| table.contains_key(button.spec_code()) && table[button.spec_code()])
}

proof fn lemma_keys_set_insert(table: Map<u8, bool>, key: Key, down: bool)
    ensures
        keys_set(table.insert(key.spec_code(), down)) == if down {
            keys_set(table).insert(key)
        } else {
            keys_set(table).remove(key)
        },
{
    let updated = keys_set(table.insert(key.spec_code(), down));
    let expected = if down {
        keys_set(table).insert(key)
    } else {
        keys_set(table).remove(key)
    };
    assert forall|k: Key| updated.contains(k) == expected.contains(k) by {
        if k.spec_code() == key.spec_code() {
            k.lemma_code_injective(key);
        }
    }
    assert(updated =~= expected);
}

proof fn lemma_buttons_set_insert(table: Map<u8, bool>, button: Button, down: bool)
    ensures
        buttons_set(table.insert(button.spec_code(), down)) == if down {
            buttons_set(table).insert(button)
        } else {
            buttons_set(table).remove(button)
        },
{
    let updated = buttons_set(table.insert(button.spec_code(), down));
    let expected = if down {
        buttons_set(table).insert(button)
    } else {
        buttons_set(table).remove(button)
    };
    assert forall|b: Button| updated.contains(b) == expected.contains(b) by {
        if b.spec_code() == button.spec_code() {
            b.lemma_code_injective(button);
        }
    }
    assert(updated =~= expected);
}

proof fn lemma_empty_tables()
    ensures
        keys_set(Map::empty()) == Set::<Key>::empty(),
        buttons_set(Map::empty()) == Set::<Button>::empty(),
{
    assert(keys_set(Map::empty()) =~= Set::<Key>::empty());
    assert(buttons_set(Map::empty()) =~= Set::<Button>::empty());
}

impl View for InputState {
    type V = InputView;

    closed spec fn view(&self) -> InputView {
        InputView {
            keys_down: keys_set(self.key_state@),
            keys_just_pressed: keys_set(self.key_state_delta@),
            buttons_down: buttons_set(self.mouse_state@),
            buttons_just_pressed: buttons_set(self.mouse_state_delta@),
            mouse_position: (self.mouse_x, self.mouse_y),
            mouse_wheel: self.mouse_wheel_state,
            mouse_wheel_delta: self.mouse_wheel_state_delta,
        }
    }
}

/// Whether `table` maps `code` to `true`.
fn is_set(table: &HashMap<u8, bool>, code: u8) -> (set: bool)
    ensures
        set == (table@.contains_key(code) && table@[code]),
{
    match table.get(&code) {
        Some(flag) => *flag,
        None => false,
    }
}

impl InputState {
    /// The state before any event.
    pub fn new() -> (state: InputState)
        ensures
            state@ == InputView::initial(),
    {
        proof {
            lemma_empty_tables();
        }
        InputState {
            key_state: HashMap::new(),
            key_state_delta: HashMap::new(),
            mouse_state: HashMap::new(),
            mouse_state_delta: HashMap::new(),
            mouse_x: 0,
            mouse_y: 0,
            mouse_wheel_state: 0,
            mouse_wheel_state_delta: 0,
        }
    }

    /// Forget what happened within the last frame. To be called at the start
    /// of each frame, before the frame's events are handled.
    pub fn clear(&mut self)
        ensures
            final(self)@ == old(self)@.cleared(),
    {
        proof {
            lemma_empty_tables();
        }
        self.key_state_delta.clear();
        self.mouse_state_delta.clear();
        self.mouse_wheel_state_delta = 0;
    }

    /// Take note of one event.
    ///
    /// A press marks the key or button as held and as just pressed, a release
    /// takes both marks away. A turn of the wheel is added to the wheel's
    /// total and replaces the latest travel. A move replaces the mouse
    /// position. Any other event changes nothing.
    pub fn handle_event(&mut self, event: Event)
        ensures
            final(self)@ == old(self)@.after(event),
    {
        match event {
            Event::KeyPressed { code } => {
                proof {
                    lemma_keys_set_insert(self.key_state@, code, true);
                    lemma_keys_set_insert(self.key_state_delta@, code, true);
                }
                self.key_state.insert(code.code(), true);
                self.key_state_delta.insert(code.code(), true);
            },
            Event::KeyReleased { code } => {
                proof {
                    lemma_keys_set_insert(self.key_state@, code, false);
                    lemma_keys_set_insert(self.key_state_delta@, code, false);
                }
                self.key_state.insert(code.code(), false);
                self.key_state_delta.insert(code.code(), false);
            },
            Event::MouseButtonPressed { button } => {
                proof {
                    lemma_buttons_set_insert(self.mouse_state@, button, true);
                    lemma_buttons_set_insert(self.mouse_state_delta@, button, true);
                }
                self.mouse_state.insert(button.code(), true);
                self.mouse_state_delta.insert(button.code(), true);
            },
            Event::MouseButtonReleased { button } => {
                proof {
                    lemma_buttons_set_insert(self.mouse_state@, button, false);
                    lemma_buttons_set_insert(self.mouse_state_delta@, button, false);
                }
                self.mouse_state.insert(button.code(), false);
                self.mouse_state_delta.insert(button.code(), false);
            },
            Event::MouseWheelScrolled { delta } => {
                self.mouse_wheel_state = match self.mouse_wheel_state.checked_add(delta as i64) {
                    Some(total) => total,
                    None => if delta > 0 {
                        i64::MAX
                    } else {
                        i64::MIN
                    },
                };
                self.mouse_wheel_state_delta = delta;
            },
            Event::MouseMoved { x, y } => {
                self.mouse_x = x;
                self.mouse_y = y;
            },
            _ => {},
        }
    }

    /// Whether `key` is held.
    pub fn key_pressed(&self, key: Key) -> (pressed: bool)
        ensures
            pressed == self@.keys_down.contains(key),
    {
        is_set(&self.key_state, key.code())
    }

    /// Whether `key` went down within the current frame and has not gone up since.
    pub fn key_just_pressed(&self, key: Key) -> (pressed: bool)
        ensures
            pressed == self@.keys_just_pressed.contains(key),
    {
        is_set(&self.key_state_delta, key.code())
    }

    /// Whether `button` is held.
    pub fn mouse_pressed(&self, button: Button) -> (pressed: bool)
        ensures
            pressed == self@.buttons_down.contains(button),
    {
        is_set(&self.mouse_state, button.code())
    }

    /// Whether `button` went down within the current frame and has not gone
    /// up since.
    pub fn mouse_just_pressed(&self, button: Button) -> (pressed: bool)
        ensures
            pressed == self@.buttons_just_pressed.contains(button),
    {
        is_set(&self.mouse_state_delta, button.code())
    }

    /// The last known position of the mouse, in pixels from the window's top left.
    pub fn mouse_position(&self) -> (position: (i32, i32))
        ensures
            position == self@.mouse_position,
    {
        (self.mouse_x, self.mouse_y)
    }

    /// The total travel of the wheel since the state was created.
    pub fn mouse_wheel(&self) -> (total: i64)
        ensures
            total == self@.mouse_wheel,
    {
        self.mouse_wheel_state
    }

    /// The travel of the wheel's latest turn within the current frame; zero
    /// if it has not been turned.
    pub fn mouse_wheel_delta(&self) -> (delta: i32)
        ensures
            delta == self@.mouse_wheel_delta,
    {
        self.mouse_wheel_state_delta
    }
}

} // verus!
