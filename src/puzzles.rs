use vstd::prelude::*;
use vstd::string::StrSliceExecFns;

verus! {

/// The six kinds of chess piece, with their variants visible to proofs.
#[verifier::external_type_specification]
pub struct ExPiece(chess::Piece);

/// White and black, with their variants visible to proofs.
#[verifier::external_type_specification]
pub struct ExColor(chess::Color);

/// The piece that a fifth notation letter other than `r`, `n` or `b` stands for.
pub const DEFAULT_PROMOTION: chess::Piece = chess::Piece::Queen;

/// The piece that a promotion letter selects.
pub open spec fn promotion_piece(c: char) -> chess::Piece {
    if c == 'r' {
        chess::Piece::Rook
    } else if c == 'n' {
        chess::Piece::Knight
    } else if c == 'b' {
        chess::Piece::Bishop
    } else {
        DEFAULT_PROMOTION
    }
}

/// What a move token says of promotion: a token of more than four characters
/// promotes, to the piece that its fifth character names.
pub open spec fn promotion_of(notation: Seq<char>) -> Option<chess::Piece> {
    if notation.len() > 4 {
        Some(promotion_piece(notation[4]))
    } else {
        None
    }
}

/// The outside parser's error, carried only to be mapped.
#[verifier::external_type_specification]
#[verifier::external_body]
pub struct ExChessError(chess::Error);

/// A square of the board: `file` 0..8 counts from `a`, `rank` 0..8 from `1`.
#[derive(Debug, Clone, Copy, PartialEq, Eq)]
pub struct Coord {
    pub file: u8,
    pub rank: u8,
}

/// Why a hint could not be given.
#[derive(Debug, Clone, Copy, PartialEq, Eq)]
pub enum HintError {
    /// The solution token at the cursor does not start with a square.
    MalformedNotation,
}

/// Unicode white space, as `char::is_whitespace` classifies it.
pub open spec fn is_space(c: char) -> bool {
    ('\u{9}' <= c && c <= '\u{d}') || c == ' ' || c == '\u{85}' || c == '\u{a0}'
        || c == '\u{1680}' || ('\u{2000}' <= c && c <= '\u{200a}') || c == '\u{2028}'
        || c == '\u{2029}' || c == '\u{202f}' || c == '\u{205f}' || c == '\u{3000}'
}

/// One character more of a left-to-right reading: white space closes the
/// open run, if any; anything else extends it.
pub open spec fn scan_step(state: (Seq<Seq<char>>, Seq<char>), c: char) -> (Seq<Seq<char>>, Seq<char>) {
    let (done, open) = state;
    if is_space(c) {
        if open.len() > 0 {
            (done.push(open), Seq::empty())
        } else {
            (done, Seq::empty())
        }
    } else {
        (done, open.push(c))
    }
}

/// Reading `s` from the left: the words already closed, and the run of
/// non-space characters still open at the end.
pub open spec fn scan(s: Seq<char>) -> (Seq<Seq<char>>, Seq<char>)
    decreases s.len(),
{
    if s.len() == 0 {
        (Seq::empty(), Seq::empty())
    } else {
        scan_step(scan(s.drop_last()), s.last())
    }
}

/// The whitespace-delimited words of `s`, in order.
pub open spec fn words(s: Seq<char>) -> Seq<Seq<char>> {
    let (done, open) = scan(s);
    if open.len() > 0 {
        done.push(open)
    } else {
        done
    }
}

pub open spec fn is_file_char(c: char) -> bool {
    'a' <= c && c <= 'h'
}

pub open spec fn is_rank_char(c: char) -> bool {
    '1' <= c && c <= '8'
}

/// A token names a square when its first two characters are a file and a rank.
pub open spec fn starts_with_square(t: Seq<char>) -> bool {
    t.len() >= 2 && is_file_char(t[0]) && is_rank_char(t[1])
}

/// The square that a token starting with one names.
pub open spec fn square_of(t: Seq<char>) -> Coord {
    Coord { file: (t[0] as int - 'a' as int) as u8, rank: (t[1] as int - '1' as int) as u8 }
}

/// The hint for the half-move at index `i` of a solution: the square that
/// the move starts from, none past the end, an error for a malformed token.
pub open spec fn hint_of(moves: Seq<char>, i: int) -> Result<Option<Coord>, HintError> {
    let w = words(moves);
    if 0 <= i < w.len() {
        if starts_with_square(w[i]) {
            Ok(Some(square_of(w[i])))
        } else {
            Err(HintError::MalformedNotation)
        }
    } else {
        Ok(None)
    }
}

/// Relies on `chess::Square::from_str`, followed by `Square::to_index`: a text
/// whose first two characters are a file `a`-`h` and a rank `1`-`8` parses to
/// the square with index `8 * rank + file`, any other fails.
#[verifier::external_body]
fn parse_square_index(text: &str) -> (r: Result<usize, chess::Error>)
    requires
        text@.len() >= 2,
    ensures
        r is Ok <==> starts_with_square(text@),
        r matches Ok(i) ==> i == 8 * (text@[1] as int - '1' as int) + (text@[0] as int - 'a' as int),
{
    <chess::Square as std::str::FromStr>::from_str(text).map(|sq| sq.to_index())
}

fn is_space_char(c: char) -> (r: bool)
    ensures
        r == is_space(c),
{
    ('\u{9}' <= c && c <= '\u{d}') || c == ' ' || c == '\u{85}' || c == '\u{a0}'
        || c == '\u{1680}' || ('\u{2000}' <= c && c <= '\u{200a}') || c == '\u{2028}'
        || c == '\u{2029}' || c == '\u{202f}' || c == '\u{205f}' || c == '\u{3000}'
}

/// The character spans `[start, end)` of the words of `text`, in order.
pub fn word_spans(text: &str) -> (r: Vec<(usize, usize)>)
    ensures
        r@.len() == words(text@).len(),
        forall|j: int|
            0 <= j < r@.len() ==> {
                &&& #[trigger] r@[j].0 < r@[j].1 <= text@.len()
                &&& text@.subrange(r@[j].0 as int, r@[j].1 as int) == words(text@)[j]
            },
{
    let n = text.unicode_len();
    let ghost s = text@;
    let mut spans: Vec<(usize, usize)> = Vec::new();
    let mut start: usize = 0;
    let mut k: usize = 0;
    while k < n
        invariant
            n == s.len(),
            s == text@,
            start <= k <= n,
            spans@.len() == scan(s.take(k as int)).0.len(),
            s.subrange(start as int, k as int) == scan(s.take(k as int)).1,
            forall|j: int|
                0 <= j < spans@.len() ==> {
                    &&& #[trigger] spans@[j].0 < spans@[j].1 <= start
                    &&& s.subrange(spans@[j].0 as int, spans@[j].1 as int) == scan(
                        s.take(k as int),
                    ).0[j]
                },
        decreases n - k,
    {
        let c = text.get_char(k);
        let ghost prev = scan(s.take(k as int));
        let ghost old_spans = spans@;
        assert(s.take(k + 1).drop_last() == s.take(k as int));
        assert(s.take(k + 1).last() == c);
        assert(scan(s.take(k + 1)) == scan_step(prev, c));
        if is_space_char(c) {
            if start < k {
                spans.push((start, k));
            }
            start = k + 1;
        } else {
            assert(s.subrange(start as int, k + 1) == s.subrange(start as int, k as int).push(c));
        }
        k = k + 1;
        assert forall|j: int| 0 <= j < spans@.len() implies {
            &&& #[trigger] spans@[j].0 < spans@[j].1 <= start
            &&& s.subrange(spans@[j].0 as int, spans@[j].1 as int) == scan(s.take(k as int)).0[j]
        } by {
            if j < old_spans.len() {
                assert(spans@[j] == old_spans[j]);
            }
        }
    }
    assert(s.take(n as int) == s);
    let ghost closed = spans@;
    if start < n {
        spans.push((start, n));
        assert(forall|j: int| 0 <= j < closed.len() ==> spans@[j] == closed[j]);
    }
    spans
}

/// A puzzle of the catalog: a position, the moves that solve it, and what is
/// shown beside it.
#[derive(Debug, Clone)]
pub struct Puzzle {
    pub puzzle_id: String,
    /// The starting position, in FEN.
    pub fen: String,
    /// The solution: coordinate-notation half-moves separated by white space.
    pub moves: String,
    pub rating: i32,
    pub rating_deviation: i32,
    /// From -100 to 100.
    pub popularity: i32,
    pub nb_plays: i32,
    pub themes: String,
    pub game_url: String,
}

/// The events that the display hands to the session.
#[derive(Debug, Clone)]
pub enum PuzzleMessage {
    /// A text field was edited; the session ignores it.
    ChangeTextInputs(String),
    /// The user asked for a hint.
    ShowHint,
}

/// What the display is to do after an event.
#[derive(Debug, Clone, Copy, PartialEq, Eq)]
pub enum PuzzleCommand {
    Nothing,
    ShowHint(Result<Option<Coord>, HintError>),
}

/// The index, in a solution, of the solver's first half-move: the first one
/// is the opponent's move that sets the puzzle up.
pub const FIRST_SOLVER_MOVE: usize = 1;

/// The session: the catalog, the active puzzle, and the cursor over its
/// solution.
#[derive(Debug)]
pub struct PuzzleTab {
    pub puzzles: Vec<Puzzle>,
    pub current_puzzle: usize,
    /// The index of the next expected half-move of the active puzzle's
    /// solution; at or past its end once the puzzle is solved.
    pub current_puzzle_move: usize,
    /// The side that the solver plays.
    pub current_puzzle_side: chess::Color,
    pub is_playing: bool,
}

impl PuzzleTab {
    /// The active puzzle index is valid whenever the catalog holds a puzzle.
    pub open spec fn wf(&self) -> bool {
        self.puzzles@.len() > 0 ==> self.current_puzzle < self.puzzles@.len()
    }

    /// There is an active puzzle.
    pub open spec fn has_puzzle(&self) -> bool {
        self.current_puzzle < self.puzzles@.len()
    }

    /// The hint for the session as it stands: none without an active puzzle.
    pub open spec fn hint(&self) -> Result<Option<Coord>, HintError> {
        if self.has_puzzle() {
            hint_of(self.puzzles@[self.current_puzzle as int].moves@, self.current_puzzle_move as int)
        } else {
            Ok(None)
        }
    }

    /// An empty session, waiting for a catalog.
    pub fn new() -> (r: Self)
        ensures
            r.puzzles@.len() == 0,
            r.current_puzzle == 0,
            r.current_puzzle_move == FIRST_SOLVER_MOVE,
            r.current_puzzle_side == chess::Color::White,
            !r.is_playing,
            r.wf(),
    {
        PuzzleTab {
            puzzles: Vec::new(),
            current_puzzle: 0,
            current_puzzle_move: FIRST_SOLVER_MOVE,
            current_puzzle_side: chess::Color::White,
            is_playing: false,
        }
    }

    /// Answers an event from the display. Neither event changes the session:
    /// a hint request is answered from the active puzzle and the cursor, and
    /// with "no hint" when there is no active puzzle.
    pub fn update(&mut self, message: PuzzleMessage) -> (r: PuzzleCommand)
        ensures
            *final(self) == *old(self),
            r == match message {
                PuzzleMessage::ShowHint => PuzzleCommand::ShowHint(old(self).hint()),
                PuzzleMessage::ChangeTextInputs(_) => PuzzleCommand::Nothing,
            },
    {
        match message {
            PuzzleMessage::ShowHint => {
                if self.current_puzzle < self.puzzles.len() {
                    let moves = self.puzzles[self.current_puzzle].moves.as_str();
                    PuzzleCommand::ShowHint(PuzzleTab::get_hint(moves, self.current_puzzle_move))
                } else {
                    PuzzleCommand::ShowHint(Ok(None))
                }
            },
            PuzzleMessage::ChangeTextInputs(_) => PuzzleCommand::Nothing,
        }
    }

    /// Replaces the catalog, makes its first puzzle the active one, and puts
    /// the cursor on the solver's first move.
    pub fn load_puzzles(&mut self, puzzles: Vec<Puzzle>, playing: bool)
        ensures
            final(self).puzzles@ == puzzles@,
            final(self).current_puzzle == 0,
            final(self).current_puzzle_move == FIRST_SOLVER_MOVE,
            final(self).current_puzzle_side == old(self).current_puzzle_side,
            final(self).is_playing == playing,
            final(self).wf(),
    {
        self.puzzles = puzzles;
        self.current_puzzle = 0;
        self.current_puzzle_move = FIRST_SOLVER_MOVE;
        self.is_playing = playing;
    }

    /// Makes the puzzle at `index` the active one, with the cursor on the
    /// solver's first move; an index outside the catalog changes nothing and
    /// gives `false`.
    pub fn select_puzzle(&mut self, index: usize) -> (r: bool)
        ensures
            r == (index < old(self).puzzles@.len()),
            r ==> *final(self) == (PuzzleTab {
                current_puzzle: index,
                current_puzzle_move: FIRST_SOLVER_MOVE,
                ..*old(self)
            }),
            !r ==> *final(self) == *old(self),
            old(self).wf() ==> final(self).wf(),
    {
        if index < self.puzzles.len() {
            self.current_puzzle = index;
            self.current_puzzle_move = FIRST_SOLVER_MOVE;
            true
        } else {
            false
        }
    }

    /// Checks if the notation indicates a promotion and returns the piece
    /// if that's the case.
    pub fn check_promotion(notation: &str) -> (r: Option<chess::Piece>)
        ensures
            r == promotion_of(notation@),
    {
        let n = notation.unicode_len();
        if n > 4 {
            let c = notation.get_char(4);
            let piece = if c == 'r' {
                chess::Piece::Rook
            } else if c == 'n' {
                chess::Piece::Knight
            } else if c == 'b' {
                chess::Piece::Bishop
            } else {
                DEFAULT_PROMOTION
            };
            Some(piece)
        } else {
            None
        }
    }

    /// The square that the half-move at `move_number` of the solution
    /// `puzzle_moves` starts from; none when the solution has no move there.
    pub fn get_hint(puzzle_moves: &str, move_number: usize) -> (r: Result<Option<Coord>, HintError>)
        ensures
            r == hint_of(puzzle_moves@, move_number as int),
    {
        let spans = word_spans(puzzle_moves);
        if !spans.is_empty() && move_number < spans.len() {
            let (start, end) = spans[move_number];
            proof {
                let t = puzzle_moves@.subrange(start as int, end as int);
                assert(t == words(puzzle_moves@)[move_number as int]);
            }
            if end - start < 2 {
                return Err(HintError::MalformedNotation);
            }
            let head = puzzle_moves.substring_char(start, start + 2);
            assert(head@ == puzzle_moves@.subrange(start as int, end as int).subrange(0, 2));
            match parse_square_index(head) {
                Ok(index) => {
                    let file = (index % 8) as u8;
                    let rank = (index / 8) as u8;
                    Ok(Some(Coord { file, rank }))
                },
                Err(_) => Err(HintError::MalformedNotation),
            }
        } else {
            Ok(None)
        }
    }
}

/// On a solution whose every half-move starts with a square, there is a hint
/// at move index `i` exactly when `0 <= i` and `i` is below the number of
/// half-moves; elsewhere there is "no hint", and never an error.
pub proof fn lemma_hint_iff_in_range(moves: Seq<char>, i: int)
    requires
        forall|j: int| 0 <= j < words(moves).len() ==> starts_with_square(#[trigger] words(moves)[j]),
    ensures
        hint_of(moves, i) is Ok,
        (hint_of(moves, i) matches Ok(Some(_))) <==> 0 <= i < words(moves).len(),
        hint_of(moves, i) == Ok::<Option<Coord>, HintError>(None) <==> !(0 <= i < words(moves).len()),
{
    if 0 <= i < words(moves).len() {
        assert(starts_with_square(words(moves)[i]));
    }
}

/// With an empty catalog, a hint request gets "no hint", never an error.
pub proof fn lemma_empty_catalog_no_hint(tab: PuzzleTab)
    requires
        tab.puzzles@.len() == 0,
    ensures
        tab.hint() == Ok::<Option<Coord>, HintError>(None),
{
}

/// A hint is a function of the active solution and the cursor alone: asked
/// again of the same puzzle at the same move, it is the same.
pub proof fn lemma_hint_repeatable(a: PuzzleTab, b: PuzzleTab)
    requires
        a.has_puzzle(),
        b.has_puzzle(),
        a.puzzles@[a.current_puzzle as int].moves@ == b.puzzles@[b.current_puzzle as int].moves@,
        a.current_puzzle_move == b.current_puzzle_move,
    ensures
        a.hint() == b.hint(),
{
}

/// Promotion letters are case-sensitive: an upper-case fifth letter is not one
/// of the recognised lower-case letters, and resolves to the default queen.
pub proof fn lemma_upper_case_promotes_to_queen(notation: Seq<char>)
    requires
        notation.len() > 4,
        'A' <= notation[4] <= 'Z',
    ensures
        promotion_of(notation) == Some(chess::Piece::Queen),
{
}

} // verus!
