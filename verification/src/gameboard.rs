//! Representation of a tic-tac-toe game board

use vstd::prelude::*;
use vstd::string::StringExecFns;
use crate::game_outcome::GameOutcome;

verus! {

broadcast use vstd::array::group_array_axioms;

/// The state of a single space on a game board
///
/// A `BoardSpace` represents the three states a space on the tic-tac-toe
/// game board can be in: occupied by an X, occupied by an O, or not occupied at all
#[derive(Debug, PartialEq, Eq, Structural, Clone, Copy)]
pub enum BoardSpace {
    Empty,
    X,
    O,
}

impl BoardSpace {
    /// The character standing for this variant in a rendered board
    pub open spec fn spec_char(self) -> char {
        match self {
            BoardSpace::Empty => ' ',
            BoardSpace::X => 'X',
            BoardSpace::O => 'O',
        }
    }

    /// Returns the character used to represent this variant of `BoardSpace`
    pub fn get_char(&self) -> (c: char)
        ensures
            c == self.spec_char(),
    {
        match self {
            BoardSpace::Empty => ' ',
            BoardSpace::X => 'X',
            BoardSpace::O => 'O',
        }
    }
}

impl Default for BoardSpace {
    /// An unoccupied space
    fn default() -> (r: Self)
        ensures
            r is Empty,
    {
        BoardSpace::Empty
    }
}

/// Enum representing all the possible space locations on a game board
#[derive(Debug, Clone, Copy, PartialEq, Eq, Structural)]
pub enum BoardSpaceLocation {
    TopLeft,
    TopMiddle,
    TopRight,
    MiddleLeft,
    MiddleMiddle,
    MiddleRight,
    BottomLeft,
    BottomMiddle,
    BottomRight,
}

impl BoardSpaceLocation {
    /// The position of this location in the enumeration order of
    /// [`BoardSpaceLocation::all`], also the index of the corresponding
    /// space in a board's view
    pub open spec fn as_int(self) -> int {
        match self {
            BoardSpaceLocation::TopLeft => 0,
            BoardSpaceLocation::TopMiddle => 1,
            BoardSpaceLocation::TopRight => 2,
            BoardSpaceLocation::MiddleLeft => 3,
            BoardSpaceLocation::MiddleMiddle => 4,
            BoardSpaceLocation::MiddleRight => 5,
            BoardSpaceLocation::BottomLeft => 6,
            BoardSpaceLocation::BottomMiddle => 7,
            BoardSpaceLocation::BottomRight => 8,
        }
    }

    /// The coordinates `(x, y)` of this location, `x` being the column
    /// and `y` the row
    pub open spec fn spec_coordinates(self) -> (u8, u8) {
        match self {
            BoardSpaceLocation::TopLeft => (0, 0),
            BoardSpaceLocation::TopMiddle => (1, 0),
            BoardSpaceLocation::TopRight => (2, 0),
            BoardSpaceLocation::MiddleLeft => (0, 1),
            BoardSpaceLocation::MiddleMiddle => (1, 1),
            BoardSpaceLocation::MiddleRight => (2, 1),
            BoardSpaceLocation::BottomLeft => (0, 2),
            BoardSpaceLocation::BottomMiddle => (1, 2),
            BoardSpaceLocation::BottomRight => (2, 2),
        }
    }

    /// Returns the coordinates `(x,y)` of this `BoardSpaceLocation` variant
    ///
    /// `(0,0)` corresponds to `TopLeft` and `(2,2)` corresponds to `BottomRight`.
    pub fn as_coordinates(&self) -> (c: (u8, u8))
        ensures
            c == self.spec_coordinates(),
            c.0 <= 2 && c.1 <= 2,
            c.1 * 3 + c.0 == self.as_int(),
        no_unwind
    {
        match self {
            BoardSpaceLocation::TopLeft => (0, 0),
            BoardSpaceLocation::TopMiddle => (1, 0),
            BoardSpaceLocation::TopRight => (2, 0),
            BoardSpaceLocation::MiddleLeft => (0, 1),
            BoardSpaceLocation::MiddleMiddle => (1, 1),
            BoardSpaceLocation::MiddleRight => (2, 1),
            BoardSpaceLocation::BottomLeft => (0, 2),
            BoardSpaceLocation::BottomMiddle => (1, 2),
            BoardSpaceLocation::BottomRight => (2, 2),
        }
    }

    /// Returns the `BoardSpaceLocation` variant that corresponds to the given coordinates
    ///
    /// `(0,0)` corresponds to `TopLeft` and `(2,2)` corresponds to `BottomRight`.
    /// Coordinates beyond `(2,2)` name no location and are ruled out by the
    /// precondition.
    pub fn from_coordinates(coordinates: (u8, u8)) -> (r: Self)
        requires
            coordinates.0 <= 2,
            coordinates.1 <= 2,
        ensures
            r.spec_coordinates() == coordinates,
    {
        let (x, y) = coordinates;
        match (x, y) {
            (0, 0) => BoardSpaceLocation::TopLeft,
            (1, 0) => BoardSpaceLocation::TopMiddle,
            (2, 0) => BoardSpaceLocation::TopRight,
            (0, 1) => BoardSpaceLocation::MiddleLeft,
            (1, 1) => BoardSpaceLocation::MiddleMiddle,
            (2, 1) => BoardSpaceLocation::MiddleRight,
            (0, 2) => BoardSpaceLocation::BottomLeft,
            (1, 2) => BoardSpaceLocation::BottomMiddle,
            _ => BoardSpaceLocation::BottomRight,
        }
    }

    /// Returns all variants of `BoardSpaceLocation`, in enumeration order
    pub fn all() -> (r: [BoardSpaceLocation; 9])
        ensures
            r@.len() == 9,
            forall|i: int| 0 <= i < 9 ==> (#[trigger] r@[i]).as_int() == i,
    {
        let variants: [BoardSpaceLocation; 9] = [
            BoardSpaceLocation::TopLeft,
            BoardSpaceLocation::TopMiddle,
            BoardSpaceLocation::TopRight,
            BoardSpaceLocation::MiddleLeft,
            BoardSpaceLocation::MiddleMiddle,
            BoardSpaceLocation::MiddleRight,
            BoardSpaceLocation::BottomLeft,
            BoardSpaceLocation::BottomMiddle,
            BoardSpaceLocation::BottomRight,
        ];
        variants
    }
}

/// Representation of a tic-tac-toe game board
///
/// That is, represents a square divided into 9 equally sized square spaces.
/// The state of each space is represented as a [`BoardSpace`].
///
/// The view of a board is the sequence of its 9 space states, in the
/// enumeration order of [`BoardSpaceLocation::all`].
#[derive(Clone, Copy)]
pub struct GameBoard {
    board_state: [BoardSpace; 9],
}

impl View for GameBoard {
    type V = Seq<BoardSpace>;

    closed spec fn view(&self) -> Seq<BoardSpace> {
        self.board_state@
    }
}

/// A board's view always holds exactly its 9 spaces.
pub broadcast proof fn lemma_board_view_len(b: GameBoard)
    ensures
        (#[trigger] b@.len()) == 9,
{
}

impl GameBoard {
    /// Returns a new `GameBoard` instance with all spaces initialized to [`BoardSpace::Empty`]
    ///
    /// Equivalent to [`GameBoard::default`]
    pub fn new() -> (r: Self)
        ensures
            r@.len() == 9,
            forall|i: int| 0 <= i < 9 ==> (#[trigger] r@[i]) is Empty,
    {
        GameBoard::default()
    }

    /// Returns a reference to one of the board spaces
    pub fn space(&self, space_location: BoardSpaceLocation) -> (r: &BoardSpace)
        ensures
            *r == self@[space_location.as_int()],
    {
        self.space_by_coordinates(space_location.as_coordinates())
    }

    /// Writes a new state to one of the board spaces
    pub fn space_mut(&mut self, space_location: BoardSpaceLocation, value: BoardSpace)
        ensures
            final(self)@ == old(self)@.update(space_location.as_int(), value),
        no_unwind
    {
        self.space_by_coordinates_mut(space_location.as_coordinates(), value)
    }

    /// Returns every board space together with its location
    ///
    /// Each element is a tuple `(board_space_location, board_space)`; the
    /// elements come in the enumeration order of [`BoardSpaceLocation::all`].
    pub fn all_spaces(&self) -> (r: Vec<(BoardSpaceLocation, BoardSpace)>)
        ensures
            r@.len() == 9,
            forall|i: int|
                0 <= i < 9 ==> (#[trigger] r@[i]).0.as_int() == i && r@[i].1 == self@[i],
    {
        let locations = BoardSpaceLocation::all();
        let mut spaces: Vec<(BoardSpaceLocation, BoardSpace)> = Vec::new();
        let mut i: usize = 0;
        while i < 9
            invariant
                i <= 9,
                spaces@.len() == i,
                forall|j: int|
                    0 <= j < i ==> (#[trigger] spaces@[j]).0.as_int() == j && spaces@[j].1
                        == self@[j],
                forall|j: int| 0 <= j < 9 ==> (#[trigger] locations@[j]).as_int() == j,
            decreases 9 - i,
        {
            let location = locations[i];
            spaces.push((location, *self.space(location)));
            i = i + 1;
        }
        spaces
    }

    /// Returns a reference to one of the board spaces. Specifies which space using
    /// its coordinates.
    ///
    /// `(0,0)` corresponds to `TopLeft` and `(2,2)` corresponds to `BottomRight`;
    /// larger coordinates name no space and are ruled out by the precondition.
    pub fn space_by_coordinates(&self, coordinates: (u8, u8)) -> (r: &BoardSpace)
        requires
            coordinates.0 <= 2,
            coordinates.1 <= 2,
        ensures
            *r == self@[coordinates.1 * 3 + coordinates.0],
    {
        let (x, y) = coordinates;
        let idx: usize = (y as usize) * 3 + (x as usize);
        &self.board_state[idx]
    }

    /// Writes a new state to one of the board spaces. Specifies which space using
    /// its coordinates.
    ///
    /// `(0,0)` corresponds to `TopLeft` and `(2,2)` corresponds to `BottomRight`;
    /// larger coordinates name no space and are ruled out by the precondition.
    pub fn space_by_coordinates_mut(&mut self, coordinates: (u8, u8), value: BoardSpace)
        requires
            coordinates.0 <= 2,
            coordinates.1 <= 2,
        ensures
            final(self)@ == old(self)@.update(coordinates.1 * 3 + coordinates.0, value),
        no_unwind
    {
        let (x, y) = coordinates;
        let idx: usize = (y as usize) * 3 + (x as usize);
        self.board_state[idx] = value;
    }

    /// Returns a reference to the space at the given view index
    pub(crate) fn space_by_index(&self, idx: u8) -> (r: &BoardSpace)
        requires
            idx < 9,
        ensures
            *r == self@[idx as int],
    {
        &self.board_state[idx as usize]
    }

    /// Returns the [`GameOutcome`] of this board
    ///
    /// Convenience method for `GameOutcome::analyze_game(&board)`
    pub fn game_outcome(&self) -> (r: GameOutcome)
        ensures
            r == crate::game_outcome::spec_outcome(self@),
    {
        GameOutcome::analyze_game(self)
    }

    /// Returns the string representation of this `GameBoard`
    ///
    /// The return value of this method is meant to visually represent the board's state.
    /// It can be printed directly as a quick-and-dirty way of 'rendering' the board.
    pub fn as_string(&self) -> (r: String)
        ensures
            r@ == spec_board_string(self@),
    {
        proof {
            lemma_board_view_len(*self);
        }
        let mut rendered = "\n ".to_owned();
        rendered.append(cell_str(self.space(BoardSpaceLocation::TopLeft)));
        rendered.append(" | ");
        rendered.append(cell_str(self.space(BoardSpaceLocation::TopMiddle)));
        rendered.append(" | ");
        rendered.append(cell_str(self.space(BoardSpaceLocation::TopRight)));
        rendered.append("\n-----------\n ");
        rendered.append(cell_str(self.space(BoardSpaceLocation::MiddleLeft)));
        rendered.append(" | ");
        rendered.append(cell_str(self.space(BoardSpaceLocation::MiddleMiddle)));
        rendered.append(" | ");
        rendered.append(cell_str(self.space(BoardSpaceLocation::MiddleRight)));
        rendered.append("\n-----------\n ");
        rendered.append(cell_str(self.space(BoardSpaceLocation::BottomLeft)));
        rendered.append(" | ");
        rendered.append(cell_str(self.space(BoardSpaceLocation::BottomMiddle)));
        rendered.append(" | ");
        rendered.append(cell_str(self.space(BoardSpaceLocation::BottomRight)));
        proof {
            assert(rendered@ =~= spec_board_string(self@));
        }
        rendered
    }
}

/// The rendering of a board: nine spaces as their characters, three to a
/// row between column bars, the rows parted by horizontal lines
pub open spec fn spec_board_string(b: Seq<BoardSpace>) -> Seq<char> {
    "\n "@ + seq![b[0].spec_char()] + " | "@ + seq![b[1].spec_char()] + " | "@ + seq![
        b[2].spec_char(),
    ] + "\n-----------\n "@ + seq![b[3].spec_char()] + " | "@ + seq![b[4].spec_char()] + " | "@
        + seq![b[5].spec_char()] + "\n-----------\n "@ + seq![b[6].spec_char()] + " | "@ + seq![
        b[7].spec_char(),
    ] + " | "@ + seq![b[8].spec_char()]
}

/// The one-character string of one space's state
fn cell_str(space: &BoardSpace) -> (r: &'static str)
    ensures
        r@ == seq![space.spec_char()],
{
    proof {
        reveal_strlit(" ");
        reveal_strlit("X");
        reveal_strlit("O");
    }
    let r = match space {
        BoardSpace::Empty => " ",
        BoardSpace::X => "X",
        BoardSpace::O => "O",
    };
    proof {
        assert(r@ =~= seq![space.spec_char()]);
    }
    r
}

impl Default for GameBoard {
    /// A board with all spaces unoccupied
    fn default() -> (r: Self)
        ensures
            r@.len() == 9,
            forall|i: int| 0 <= i < 9 ==> (#[trigger] r@[i]) is Empty,
    {
        GameBoard {
            board_state: [
                BoardSpace::Empty,
                BoardSpace::Empty,
                BoardSpace::Empty,
                BoardSpace::Empty,
                BoardSpace::Empty,
                BoardSpace::Empty,
                BoardSpace::Empty,
                BoardSpace::Empty,
                BoardSpace::Empty,
            ],
        }
    }
}

} // verus!
