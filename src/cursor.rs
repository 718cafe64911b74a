//! Track the cursor of a text input.
use crate::animation::{nanos_between, AnimationState, Moment};
use crate::clock::now;
use crate::value::{graphemes_of, next_word_end, previous_start_of_word, previous_word_start, value_len};
use iced_native::widget::text_input::Value;
use vstd::prelude::*;

verus! {

/// How long the cursor blinks after the last interaction, in nanoseconds.
pub const BLINK_MAX_NANOS: u64 = 10_000_000_000;

/// The length of one phase of blinking, in milliseconds.
pub const BLINK_PHASE_MILLIS: u64 = 500;

/// The length of one phase of blinking, in nanoseconds.
pub const BLINK_PHASE_NANOS: u64 = 500_000_000;

/// The state of a [`Cursor`].
#[derive(Debug, Clone, Copy, PartialEq, Eq, Structural)]
pub enum State {
    /// Cursor without a selection.
    Index(usize),
    /// Cursor selecting a range of text.
    Selection {
        /// The start of the selection.
        start: usize,
        /// The end of the selection.
        end: usize,
    },
}

/// The cursor of a text input.
#[derive(Debug, Clone, Copy)]
pub struct Cursor {
    state: State,
    last_ui_update: Moment,
}

/// The smaller of two integers.
pub open spec fn min_int(a: int, b: int) -> int {
    if a <= b { a } else { b }
}

/// The larger of two integers.
pub open spec fn max_int(a: int, b: int) -> int {
    if a >= b { a } else { b }
}

/// The state that selects from `start` to `end`: a plain index where the two
/// coincide.
pub open spec fn range_state(start: usize, end: usize) -> State {
    if start == end {
        State::Index(start)
    } else {
        State::Selection { start, end }
    }
}

/// A state with its positions clamped to a text of `len` graphemes.
pub open spec fn clamped(s: State, len: nat) -> State {
    match s {
        State::Index(i) => State::Index(min_int(i as int, len as int) as usize),
        State::Selection { start, end } => range_state(
            min_int(start as int, len as int) as usize,
            min_int(end as int, len as int) as usize,
        ),
    }
}

/// The leftmost position of a clamped state.
pub open spec fn left_of(s: State, len: nat) -> int {
    match clamped(s, len) {
        State::Index(i) => i as int,
        State::Selection { start, end } => min_int(start as int, end as int),
    }
}

/// The rightmost position of a clamped state.
pub open spec fn right_of(s: State, len: nat) -> int {
    match clamped(s, len) {
        State::Index(i) => i as int,
        State::Selection { start, end } => max_int(start as int, end as int),
    }
}

/// Whether the cursor shows, `since` nanoseconds after the last interaction:
/// always once blinking has stopped, else in the first half of each second.
pub open spec fn visible_after(since: u64) -> bool {
    if since > BLINK_MAX_NANOS {
        true
    } else {
        (since % 1_000_000_000) / 1_000_000 / BLINK_PHASE_MILLIS == 0
    }
}

/// The animation a cursor in state `s`, last touched at `last`, needs at
/// `now`: while a plain cursor blinks, the next phase half a second on
/// (saturating); otherwise none.
pub open spec fn animation_at(s: State, last: Moment, now: Moment) -> AnimationState {
    match s {
        State::Index(_) => if nanos_between(last, now) > BLINK_MAX_NANOS {
            AnimationState::NotAnimating
        } else {
            AnimationState::AnimateIn(Moment { nanos: min_int(now.nanos + BLINK_PHASE_NANOS, u64::MAX as int) as u64 })
        },
        _ => AnimationState::NotAnimating,
    }
}

/// The position where the cursor comes to rest after moving right by
/// `amount` graphemes.
pub open spec fn moved_right(s: State, len: nat, amount: usize) -> State {
    match clamped(s, len) {
        State::Index(i) => State::Index(min_int(
            min_int(i + amount, usize::MAX as int),
            len as int,
        ) as usize),
        State::Selection { start, end } => State::Index(max_int(start as int, end as int) as usize),
    }
}

/// The position where the cursor comes to rest after moving left by one.
pub open spec fn moved_left(s: State, len: nat) -> State {
    match clamped(s, len) {
        State::Index(i) => State::Index(if i > 0 { (i - 1) as usize } else { 0 }),
        State::Selection { start, end } => State::Index(min_int(start as int, end as int) as usize),
    }
}

/// The selection after extending it left by one, if there is room.
pub open spec fn selected_left(s: State, len: nat) -> Option<State> {
    match clamped(s, len) {
        State::Index(i) => if i > 0 { Some(range_state(i, (i - 1) as usize)) } else { None },
        State::Selection { start, end } => if end > 0 {
            Some(range_state(start, (end - 1) as usize))
        } else {
            None
        },
    }
}

/// The selection after extending it right by one, if there is room.
pub open spec fn selected_right(s: State, len: nat) -> Option<State> {
    match clamped(s, len) {
        State::Index(i) => if i < len { Some(range_state(i, (i + 1) as usize)) } else { None },
        State::Selection { start, end } => if end < len {
            Some(range_state(start, (end + 1) as usize))
        } else {
            None
        },
    }
}

/// The selection after extending its moving end to the previous word start.
pub open spec fn selected_left_by_words(s: State, g: Seq<Seq<char>>) -> State {
    match clamped(s, g.len()) {
        State::Index(i) => range_state(i, previous_word_start(g, i as nat) as usize),
        State::Selection { start, end } => range_state(
            start,
            previous_word_start(g, end as nat) as usize,
        ),
    }
}

/// The selection after extending its moving end to the next word end.
pub open spec fn selected_right_by_words(s: State, g: Seq<Seq<char>>) -> State {
    match clamped(s, g.len()) {
        State::Index(i) => range_state(i, next_word_end(g, i as nat) as usize),
        State::Selection { start, end } => range_state(start, next_word_end(g, end as nat) as usize),
    }
}

/// The ordered bounds of a clamped selection, if there is one.
pub open spec fn selection_of(s: State, len: nat) -> Option<(usize, usize)> {
    match clamped(s, len) {
        State::Selection { start, end } => Some(
            (min_int(start as int, end as int) as usize, max_int(start as int, end as int) as usize),
        ),
        _ => None,
    }
}

impl Cursor {
    /// The state as stored, before it is clamped to a value.
    pub closed spec fn raw_state(self) -> State {
        self.state
    }

    /// The moment of the last interaction.
    pub closed spec fn last_update(self) -> Moment {
        self.last_ui_update
    }

    /// A cursor in the given state, last touched at `at`.
    pub fn new(state: State, at: Moment) -> (r: Cursor)
        ensures
            r.raw_state() == state,
            r.last_update() == at,
    {
        Cursor { state, last_ui_update: at }
    }

    /// Returns the state of the cursor within `value`.
    pub fn state(&self, value: &Value) -> (r: State)
        ensures
            r == clamped(self.raw_state(), value_len(*value)),
    {
        let len = value.len();
        match self.state {
            State::Index(index) => State::Index(if index < len { index } else { len }),
            State::Selection { start, end } => {
                let start = if start < len { start } else { len };
                let end = if end < len { end } else { len };
                if start == end {
                    State::Index(start)
                } else {
                    State::Selection { start, end }
                }
            },
        }
    }

    /// Whether the cursor shows at `now`: a false value means that it is in
    /// the hidden phase of blinking.
    pub fn blink_visible_at(&self, now: Moment) -> (r: bool)
        ensures
            r == visible_after(nanos_between(self.last_update(), now)),
    {
        let since = now.saturating_since(self.last_ui_update);
        if since > BLINK_MAX_NANOS {
            true
        } else {
            (since % 1_000_000_000) / 1_000_000 / BLINK_PHASE_MILLIS == 0
        }
    }

    /// Whether the cursor shows now, by the system clock.
    pub fn blink_visible(&self) -> (r: bool)
        ensures
            exists|t: Moment| r == visible_after(nanos_between(self.last_update(), t)),
    {
        let t = now();
        self.blink_visible_at(t)
    }

    /// The animation the cursor needs at `now`: while a plain cursor blinks,
    /// the next phase half a second on; otherwise none.
    pub fn next_animation_at(&self, now: Moment) -> (r: AnimationState)
        ensures
            r == animation_at(self.raw_state(), self.last_update(), now),
    {
        match self.state {
            State::Index(_) => {
                if now.saturating_since(self.last_ui_update) > BLINK_MAX_NANOS {
                    AnimationState::NotAnimating
                } else {
                    AnimationState::AnimateIn(
                        Moment { nanos: now.nanos.saturating_add(BLINK_PHASE_NANOS) },
                    )
                }
            },
            _ => AnimationState::NotAnimating,
        }
    }

    /// The animation the cursor needs now, by the system clock.
    pub fn next_animation(&self) -> (r: AnimationState)
        ensures
            exists|t: Moment| r == animation_at(self.raw_state(), self.last_update(), t),
            self.raw_state() is Selection ==> r == AnimationState::NotAnimating,
    {
        let t = now();
        self.next_animation_at(t)
    }

    /// Records an interaction: the cursor starts blinking anew.
    pub fn on_click(&mut self)
        ensures
            final(self).raw_state() == old(self).raw_state(),
    {
        self.last_ui_update = now();
    }

    /// Places the cursor at `position`, without a selection.
    pub fn move_to(&mut self, position: usize)
        ensures
            final(self).raw_state() == State::Index(position),
    {
        self.last_ui_update = now();
        self.state = State::Index(position);
    }

    /// Moves the cursor right by one grapheme.
    pub fn move_right(&mut self, value: &Value)
        ensures
            final(self).raw_state() == moved_right(old(self).raw_state(), value_len(*value), 1),
    {
        self.move_right_by_amount(value, 1)
    }

    /// Moves the cursor to the end of the next word.
    pub fn move_right_by_words(&mut self, value: &Value)
        ensures
            final(self).raw_state() == State::Index(
                next_word_end(
                    graphemes_of(*value),
                    right_of(old(self).raw_state(), value_len(*value)) as nat,
                ) as usize,
            ),
    {
        let r = self.right(value);
        let p = value.next_end_of_word(r);
        self.move_to(p)
    }

    /// Moves the cursor right by `amount` graphemes, or to the right end of
    /// the selection.
    pub fn move_right_by_amount(&mut self, value: &Value, amount: usize)
        ensures
            final(self).raw_state() == moved_right(old(self).raw_state(), value_len(*value), amount),
    {
        match self.state(value) {
            State::Index(index) => {
                let len = value.len();
                let moved = index.saturating_add(amount);
                self.move_to(if moved < len { moved } else { len })
            },
            State::Selection { start, end } => self.move_to(if end > start { end } else { start }),
        }
    }

    /// Moves the cursor left by one grapheme, or to the left end of the
    /// selection.
    pub fn move_left(&mut self, value: &Value)
        ensures
            final(self).raw_state() == moved_left(old(self).raw_state(), value_len(*value)),
    {
        match self.state(value) {
            State::Index(index) if index > 0 => self.move_to(index - 1),
            State::Selection { start, end } => self.move_to(if start < end { start } else { end }),
            _ => self.move_to(0),
        }
    }

    /// Moves the cursor to the start of the previous word.
    pub fn move_left_by_words(&mut self, value: &Value)
        ensures
            final(self).raw_state() == State::Index(
                previous_word_start(
                    graphemes_of(*value),
                    left_of(old(self).raw_state(), value_len(*value)) as nat,
                ) as usize,
            ),
    {
        let l = self.left(value);
        let p = previous_start_of_word(value, l);
        self.move_to(p);
    }

    /// Selects from `start` to `end`.
    pub fn select_range(&mut self, start: usize, end: usize)
        ensures
            final(self).raw_state() == range_state(start, end),
    {
        if start == end {
            self.state = State::Index(start);
        } else {
            self.state = State::Selection { start, end };
        }
        self.last_ui_update = now();
    }

    /// Extends the selection left by one grapheme, where there is room.
    pub fn select_left(&mut self, value: &Value)
        ensures
            match selected_left(old(self).raw_state(), value_len(*value)) {
                Some(s) => final(self).raw_state() == s,
                None => *final(self) == *old(self),
            },
    {
        match self.state(value) {
            State::Index(index) => {
                if index > 0 {
                    self.select_range(index, index - 1)
                }
            },
            State::Selection { start, end } => {
                if end > 0 {
                    self.select_range(start, end - 1)
                }
            },
        }
    }

    /// Extends the selection right by one grapheme, where there is room.
    pub fn select_right(&mut self, value: &Value)
        ensures
            match selected_right(old(self).raw_state(), value_len(*value)) {
                Some(s) => final(self).raw_state() == s,
                None => *final(self) == *old(self),
            },
    {
        let len = value.len();
        match self.state(value) {
            State::Index(index) => {
                if index < len {
                    self.select_range(index, index + 1)
                }
            },
            State::Selection { start, end } => {
                if end < len {
                    self.select_range(start, end + 1)
                }
            },
        }
    }

    /// Extends the selection to the start of the previous word.
    pub fn select_left_by_words(&mut self, value: &Value)
        ensures
            final(self).raw_state() == selected_left_by_words(old(self).raw_state(), graphemes_of(*value)),
    {
        match self.state(value) {
            State::Index(index) => {
                let p = previous_start_of_word(value, index);
                self.select_range(index, p)
            },
            State::Selection { start, end } => {
                let p = previous_start_of_word(value, end);
                self.select_range(start, p)
            },
        }
    }

    /// Extends the selection to the end of the next word.
    pub fn select_right_by_words(&mut self, value: &Value)
        ensures
            final(self).raw_state() == selected_right_by_words(old(self).raw_state(), graphemes_of(*value)),
    {
        match self.state(value) {
            State::Index(index) => {
                let p = value.next_end_of_word(index);
                self.select_range(index, p)
            },
            State::Selection { start, end } => {
                let p = value.next_end_of_word(end);
                self.select_range(start, p)
            },
        }
    }

    /// Selects the whole value.
    pub fn select_all(&mut self, value: &Value)
        ensures
            final(self).raw_state() == range_state(0, value_len(*value) as usize),
    {
        let len = value.len();
        self.select_range(0, len);
    }

    /// The start of the cursor, clamped to the value.
    pub fn start(&self, value: &Value) -> (r: usize)
        ensures
            r == min_int(
                match self.raw_state() {
                    State::Index(i) => i as int,
                    State::Selection { start, .. } => start as int,
                },
                value_len(*value) as int,
            ),
    {
        let start = match self.state {
            State::Index(index) => index,
            State::Selection { start, .. } => start,
        };
        let len = value.len();
        if start < len { start } else { len }
    }

    /// The end of the cursor, clamped to the value.
    pub fn end(&self, value: &Value) -> (r: usize)
        ensures
            r == min_int(
                match self.raw_state() {
                    State::Index(i) => i as int,
                    State::Selection { end, .. } => end as int,
                },
                value_len(*value) as int,
            ),
    {
        let end = match self.state {
            State::Index(index) => index,
            State::Selection { end, .. } => end,
        };
        let len = value.len();
        if end < len { end } else { len }
    }

    /// The ordered bounds of the selection, if there is one.
    pub fn selection(&self, value: &Value) -> (r: Option<(usize, usize)>)
        ensures
            r == selection_of(self.raw_state(), value_len(*value)),
    {
        match self.state(value) {
            State::Selection { start, end } => Some(
                (if start < end { start } else { end }, if start > end { start } else { end }),
            ),
            _ => None,
        }
    }

    fn left(&self, value: &Value) -> (r: usize)
        ensures
            r == left_of(self.raw_state(), value_len(*value)),
            r <= value_len(*value),
    {
        match self.state(value) {
            State::Index(index) => index,
            State::Selection { start, end } => if start < end { start } else { end },
        }
    }

    fn right(&self, value: &Value) -> (r: usize)
        ensures
            r == right_of(self.raw_state(), value_len(*value)),
            r <= value_len(*value),
    {
        match self.state(value) {
            State::Index(index) => index,
            State::Selection { start, end } => if start > end { start } else { end },
        }
    }
}

impl Default for Cursor {
    fn default() -> (r: Cursor)
        ensures
            r.raw_state() == State::Index(0),
    {
        Cursor { state: State::Index(0), last_ui_update: now() }
    }
}

} // verus!
