use vstd::prelude::*;

verus! {

/// What the main menu loop tells its caller once a menu session ends.
pub enum AppStatus {
    Loop,
    Exit,
}

/// One input event that the main menu reacts to.
#[derive(Clone, Copy, Debug, PartialEq, Eq, Structural)]
pub enum MenuEvent {
    Up,
    Down,
    Confirm,
    Cancel,
    Resize { width: u16, height: u16 },
    Other,
}

/// A single move of the selection cursor.
#[derive(Clone, Copy, Debug, PartialEq, Eq, Structural)]
pub enum Move {
    Up,
    Down,
}

/// What a menu event did to the menu.
#[derive(Clone, Copy, Debug, PartialEq, Eq, Structural)]
pub enum MenuOutcome {
    /// Nothing changed.
    Ignored,
    /// The selection moved: the option list has to be redrawn.
    SelectionMoved,
    /// The terminal size changed: the whole page has to be redrawn.
    Resized,
    /// The option at this index was confirmed.
    Chosen(usize),
    /// The user asked to leave.
    Cancelled,
}

/// The selection and the terminal dimensions of one menu session.
#[derive(Clone, Copy, Debug, PartialEq, Eq, Structural)]
pub struct MenuState {
    pub selected: usize,
    pub option_count: usize,
    pub width: u16,
    pub height: u16,
}

/// The index reached from `selected` by one move, wrapping around the ends.
pub open spec fn moved(selected: int, count: int, m: Move) -> int {
    match m {
        Move::Up => (selected + count - 1) % count,
        Move::Down => (selected + 1) % count,
    }
}

/// The index reached from `selected` after the moves of `moves`, in order.
pub open spec fn after_moves(selected: int, count: int, moves: Seq<Move>) -> int
    decreases moves.len(),
{
    if moves.len() == 0 {
        selected
    } else {
        after_moves(moved(selected, count, moves[0]), count, moves.drop_first())
    }
}

impl MenuState {
    pub open spec fn wf(self) -> bool {
        self.option_count > 0 && self.selected < self.option_count
    }

    /// A menu of `option_count` options with the first one selected.
    pub fn new(option_count: usize, width: u16, height: u16) -> (r: MenuState)
        requires
            option_count > 0,
        ensures
            r.wf(),
            r == (MenuState { selected: 0, option_count, width, height }),
    {
        MenuState { selected: 0, option_count, width, height }
    }

    /// Moves the selection one step, wrapping from the first option to the
    /// last and from the last to the first.
    pub fn apply_move(&mut self, m: Move)
        requires
            old(self).wf(),
        ensures
            final(self).wf(),
            final(self).selected == moved(old(self).selected as int, old(self).option_count as int, m),
            final(self).option_count == old(self).option_count,
            final(self).width == old(self).width,
            final(self).height == old(self).height,
    {
        match m {
            Move::Up => {
                if self.selected == 0 {
                    self.selected = self.option_count - 1;
                } else {
                    self.selected = self.selected - 1;
                }
            },
            Move::Down => {
                if self.selected + 1 == self.option_count {
                    self.selected = 0;
                } else {
                    self.selected = self.selected + 1;
                }
            },
        }
        proof {
            let s = old(self).selected as int;
            let n = old(self).option_count as int;
            if s == 0 {
                assert((s + n - 1) % n == n - 1) by (nonlinear_arith)
                    requires s == 0, n > 0;
            } else {
                assert((s + n - 1) % n == s - 1) by (nonlinear_arith)
                    requires 0 < s < n;
            }
            if s + 1 == n {
                assert((s + 1) % n == 0) by (nonlinear_arith)
                    requires s + 1 == n, n > 0;
            } else {
                assert((s + 1) % n == s + 1) by (nonlinear_arith)
                    requires 0 <= s, s + 1 < n;
            }
        }
    }

    /// Reacts to one input event: the arrows move the selection, a resize
    /// stores the new dimensions, confirm chooses the selected option and
    /// cancel leaves. The selection stays within the options.
    pub fn handle(&mut self, event: MenuEvent) -> (r: MenuOutcome)
        requires
            old(self).wf(),
        ensures
            final(self).wf(),
            final(self).option_count == old(self).option_count,
            match event {
                MenuEvent::Up => {
                    &&& r == MenuOutcome::SelectionMoved
                    &&& final(self).selected == moved(old(self).selected as int, old(self).option_count as int, Move::Up)
                    &&& final(self).width == old(self).width
                    &&& final(self).height == old(self).height
                },
                MenuEvent::Down => {
                    &&& r == MenuOutcome::SelectionMoved
                    &&& final(self).selected == moved(old(self).selected as int, old(self).option_count as int, Move::Down)
                    &&& final(self).width == old(self).width
                    &&& final(self).height == old(self).height
                },
                MenuEvent::Resize { width, height } => {
                    &&& r == MenuOutcome::Resized
                    &&& *final(self) == (MenuState { width, height, ..*old(self) })
                },
                MenuEvent::Confirm => {
                    &&& r == MenuOutcome::Chosen(old(self).selected)
                    &&& *final(self) == *old(self)
                },
                MenuEvent::Cancel => {
                    &&& r == MenuOutcome::Cancelled
                    &&& *final(self) == *old(self)
                },
                MenuEvent::Other => {
                    &&& r == MenuOutcome::Ignored
                    &&& *final(self) == *old(self)
                },
            },
    {
        match event {
            MenuEvent::Up => {
                self.apply_move(Move::Up);
                MenuOutcome::SelectionMoved
            },
            MenuEvent::Down => {
                self.apply_move(Move::Down);
                MenuOutcome::SelectionMoved
            },
            MenuEvent::Resize { width, height } => {
                self.width = width;
                self.height = height;
                MenuOutcome::Resized
            },
            MenuEvent::Confirm => MenuOutcome::Chosen(self.selected),
            MenuEvent::Cancel => MenuOutcome::Cancelled,
            MenuEvent::Other => MenuOutcome::Ignored,
        }
    }
}

/// Whatever moves are made from a selection within the options, the
/// selection stays within the options.
pub proof fn lemma_moves_stay_in_range(selected: int, count: int, moves: Seq<Move>)
    requires
        0 <= selected < count,
    ensures
        0 <= after_moves(selected, count, moves) < count,
    decreases moves.len(),
{
    if moves.len() > 0 {
        let next = moved(selected, count, moves[0]);
        assert(0 <= next < count) by (nonlinear_arith)
            requires
                next == (selected + count - 1) % count || next == (selected + 1) % count,
                count > 0,
        ;
        lemma_moves_stay_in_range(next, count, moves.drop_first());
    }
}

} // verus!
