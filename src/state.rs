use vstd::prelude::*;

use crate::decimal::{numbered, numbered_string};

verus! {

/// A key press, as far as the application tells keys apart.
#[derive(Clone, Copy, Debug, PartialEq, Eq, Structural)]
pub enum Key {
    /// A printable character; the space bar is `Char(' ')`.
    Char(char),
    Esc,
    Up,
    Down,
    /// Any other key: accepted, and without effect.
    Other,
}

/// The number of items the application starts with.
pub const INITIAL_ITEMS: usize = 5;

/// The label of the `k`-th item of the initial list.
pub open spec fn initial_label(k: nat) -> Seq<char> {
    numbered("Item "@, k)
}

/// The label of an item appended when the list is `n - 1` items long.
pub open spec fn added_label(n: nat) -> Seq<char> {
    numbered("New Item "@, n)
}

/// The list the application starts with: `Item 1` to `Item 5`.
pub open spec fn initial_items() -> Seq<Seq<char>> {
    Seq::new(INITIAL_ITEMS as nat, |i: int| initial_label((i + 1) as nat))
}

/// The state of the application as plain values.
pub struct AppView {
    pub counter: u8,
    pub should_quit: bool,
    pub items: Seq<Seq<char>>,
    pub selected_index: nat,
}

impl AppView {
    /// The selection points into the list, or sits at 0.
    /// On a non-empty list the selection is therefore always valid.
    pub open spec fn wf(self) -> bool {
        self.selected_index == 0 || self.selected_index < self.items.len()
    }

    /// The state the application starts in.
    pub open spec fn initial() -> AppView {
        AppView { counter: 0, should_quit: false, items: initial_items(), selected_index: 0 }
    }

    /// The counter advanced by one, held at its maximum.
    pub open spec fn ticked(self) -> AppView {
        AppView {
            counter: if self.counter < u8::MAX { (self.counter + 1) as u8 } else { u8::MAX },
            ..self
        }
    }

    /// The state after the key `key` is handled.
    pub open spec fn step(self, key: Key) -> AppView {
        match key {
            Key::Char('q') | Key::Esc => AppView { should_quit: true, ..self },
            Key::Char(' ') => self.ticked(),
            Key::Up => if self.selected_index > 0 {
                AppView { selected_index: (self.selected_index - 1) as nat, ..self }
            } else {
                self
            },
            Key::Down => if self.selected_index + 1 < self.items.len() {
                AppView { selected_index: self.selected_index + 1, ..self }
            } else {
                self
            },
            Key::Char('a') => AppView {
                items: self.items.push(added_label(self.items.len() + 1)),
                ..self
            },
            Key::Char('d') => if self.items.len() > 0 {
                let items = self.items.remove(self.selected_index as int);
                AppView {
                    items,
                    selected_index: if self.selected_index >= items.len() && self.selected_index > 0 {
                        (self.selected_index - 1) as nat
                    } else {
                        self.selected_index
                    },
                    ..self
                }
            } else {
                self
            },
            _ => self,
        }
    }

    /// The state after handling each key of `keys` in turn.
    pub open spec fn run(self, keys: Seq<Key>) -> AppView
        decreases keys.len(),
    {
        if keys.len() == 0 {
            self
        } else {
            self.step(keys[0]).run(keys.drop_first())
        }
    }
}

/// The application: a saturating counter, a quit flag, and a list with a selection.
pub struct App {
    counter: u8,
    should_quit: bool,
    items: Vec<String>,
    selected_index: usize,
}

impl View for App {
    type V = AppView;

    closed spec fn view(&self) -> AppView {
        AppView {
            counter: self.counter,
            should_quit: self.should_quit,
            items: self.items.deep_view(),
            selected_index: self.selected_index as nat,
        }
    }
}

impl App {
    /// The application as it starts: five items, the first selected, counter at 0.
    pub fn new() -> (r: App)
        ensures
            r@ == AppView::initial(),
            r@.wf(),
    {
        let mut items: Vec<String> = Vec::new();
        let mut k: usize = 1;
        while k <= INITIAL_ITEMS
            invariant
                1 <= k <= INITIAL_ITEMS + 1,
                items.deep_view() =~= initial_items().take(k - 1),
            decreases INITIAL_ITEMS + 1 - k,
        {
            let label = numbered_string("Item ", k);
            let ghost before = items.deep_view();
            items.push(label);
            assert(items.deep_view() =~= before.push(label@));
            assert(initial_items()[k - 1] == initial_label(k as nat));
            assert(items.deep_view() =~= initial_items().take(k as int));
            k = k + 1;
        }
        assert(initial_items().take(INITIAL_ITEMS as int) =~= initial_items());
        App { counter: 0, should_quit: false, items, selected_index: 0 }
    }

    /// Advances the counter by one; at its maximum it stays there.
    pub fn tick(&mut self)
        ensures
            final(self)@ == old(self)@.ticked(),
    {
        self.counter = self.counter.saturating_add(1);
    }

    /// Handles one key press: see `AppView::step`.
    pub fn handle_key(&mut self, key: Key)
        requires
            old(self)@.wf(),
            old(self)@.items.len() < usize::MAX,
        ensures
            final(self)@ == old(self)@.step(key),
            final(self)@.wf(),
    {
        match key {
            Key::Char('q') | Key::Esc => {
                self.should_quit = true;
            },
            Key::Char(' ') => {
                self.tick();
            },
            Key::Up => {
                if self.selected_index > 0 {
                    self.selected_index = self.selected_index - 1;
                }
            },
            Key::Down => {
                if self.selected_index + 1 < self.items.len() {
                    self.selected_index = self.selected_index + 1;
                }
            },
            Key::Char('a') => {
                let label = numbered_string("New Item ", self.items.len() + 1);
                self.items.push(label);
                assert(self.items.deep_view() =~= old(self)@.items.push(
                    added_label(old(self)@.items.len() + 1),
                ));
            },
            Key::Char('d') => {
                if self.items.len() > 0 {
                    self.items.remove(self.selected_index);
                    assert(self.items.deep_view() =~= old(self)@.items.remove(
                        self.selected_index as int,
                    ));
                    if self.selected_index >= self.items.len() && self.selected_index > 0 {
                        self.selected_index = self.selected_index - 1;
                    }
                }
            },
            _ => {},
        }
    }

    /// Handles one input event, `None` for an event that is not a key press,
    /// and says whether the application goes on running.
    pub fn handle_event(&mut self, key: Option<Key>) -> (keep_running: bool)
        requires
            old(self)@.wf(),
            old(self)@.items.len() < usize::MAX,
        ensures
            final(self)@ == match key {
                Some(k) => old(self)@.step(k),
                None => old(self)@,
            },
            final(self)@.wf(),
            keep_running == !final(self)@.should_quit,
    {
        if let Some(k) = key {
            self.handle_key(k);
        }
        !self.should_quit
    }

    /// The counter.
    pub fn counter(&self) -> (r: u8)
        ensures
            r == self@.counter,
    {
        self.counter
    }

    /// Whether the application is to stop.
    pub fn should_quit(&self) -> (r: bool)
        ensures
            r == self@.should_quit,
    {
        self.should_quit
    }

    /// The items, in display order.
    pub fn items(&self) -> (r: &Vec<String>)
        ensures
            r.deep_view() == self@.items,
    {
        &self.items
    }

    /// The position of the selected item.
    pub fn selected_index(&self) -> (r: usize)
        ensures
            r as nat == self@.selected_index,
    {
        self.selected_index
    }
}

} // verus!
