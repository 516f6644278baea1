use vstd::prelude::*;

verus! {

/// Why an operation was refused: the board was in the other state.
#[derive(Debug)]
pub struct WrongBoardStateError {
    is_active: bool,
    description: Option<String>,
}

impl WrongBoardStateError {
    /// True when the operation needed an idle board but a glyph was being drawn.
    pub closed spec fn spec_expects_static(&self) -> bool {
        self.is_active
    }

    /// What the caller was trying to do, if it said.
    pub closed spec fn spec_description(&self) -> Option<Seq<char>> {
        match self.description {
            Some(d) => Some(d@),
            None => None,
        }
    }

    pub fn expected_static(description: Option<&str>) -> (r: Self)
        ensures
            r.spec_expects_static(),
            r.spec_description() == opt_chars(description),
    {
        Self { is_active: true, description: owned(description) }
    }

    pub fn expected_active(description: Option<&str>) -> (r: Self)
        ensures
            !r.spec_expects_static(),
            r.spec_description() == opt_chars(description),
    {
        Self { is_active: false, description: owned(description) }
    }

    /// Whether the operation needed an idle board (else it needed an active one).
    pub fn expects_static(&self) -> (r: bool)
        ensures
            r == self.spec_expects_static(),
    {
        self.is_active
    }

    pub fn description(&self) -> (r: Option<&str>)
        ensures
            opt_chars(r) == self.spec_description(),
    {
        match &self.description {
            Some(d) => Some(d.as_str()),
            None => None,
        }
    }

    /// The error as a sentence.
    pub fn message(&self) -> (r: String)
        ensures
            r@ == message_chars(self.spec_expects_static(), self.spec_description()),
    {
        let mut m = if self.is_active {
            String::from_str("A glyph is already being drawn")
        } else {
            String::from_str("No glyph is currently being drawn")
        };
        match &self.description {
            Some(d) => {
                m.append(", so ");
                m.append(d.as_str());
            },
            None => {},
        }
        m
    }
}

/// The text that describes an error: which state the board was in, then
/// what the caller was trying to do.
pub open spec fn message_chars(expects_static: bool, description: Option<Seq<char>>) -> Seq<char> {
    let head = if expects_static {
        "A glyph is already being drawn"@
    } else {
        "No glyph is currently being drawn"@
    };
    match description {
        Some(d) => head + ", so "@ + d,
        None => head,
    }
}

pub open spec fn opt_chars(s: Option<&str>) -> Option<Seq<char>> {
    match s {
        Some(d) => Some(d@),
        None => None,
    }
}

fn owned(s: Option<&str>) -> (r: Option<String>)
    ensures
        match r {
            Some(o) => s is Some && o@ == s->0@,
            None => s is None,
        },
{
    match s {
        Some(d) => Some(String::from_str(d)),
        None => None,
    }
}

/// A position on the board: the binary64 encodings of its two coordinates,
/// kept bit for bit as the pointer reported them.
#[derive(Clone, Copy, Debug, PartialEq, Eq, Structural)]
pub struct Point {
    pub x_bits: u64,
    pub y_bits: u64,
}

impl Point {
    pub fn from_bits(x_bits: u64, y_bits: u64) -> (r: Point)
        ensures
            r == (Point { x_bits, y_bits }),
    {
        Point { x_bits, y_bits }
    }
}

/// One continuous stroke: the positions sampled along it, in order.
#[derive(Debug)]
pub struct Glyph {
    points: Vec<Point>,
}

impl View for Glyph {
    type V = Seq<Point>;

    closed spec fn view(&self) -> Seq<Point> {
        self.points@
    }
}

impl Glyph {
    /// A glyph is never empty: it starts with the position where drawing began.
    #[verifier::type_invariant]
    spec fn nonempty(self) -> bool {
        self.points@.len() >= 1
    }

    pub fn points(&self) -> (r: &Vec<Point>)
        ensures
            r@ == self@,
            r@.len() >= 1,
    {
        proof {
            use_type_invariant(self);
        }
        &self.points
    }

    /// The glyph extended by `point`.
    fn extended(self, point: Point) -> (r: Glyph)
        ensures
            r@ == self@.push(point),
    {
        let mut points = self.points;
        points.push(point);
        Glyph { points }
    }
}

/// The strokes of a board: each finished glyph, and the one being drawn if any.
pub ghost struct BoardState {
    pub finished: Seq<Seq<Point>>,
    pub current: Option<Seq<Point>>,
}

impl BoardState {
    pub open spec fn initial() -> BoardState {
        BoardState { finished: Seq::empty(), current: None }
    }

    pub open spec fn is_active(self) -> bool {
        self.current is Some
    }

    /// Starting a glyph at `p`: only an idle board changes.
    pub open spec fn begin_drawing(self, p: Point) -> BoardState {
        if self.is_active() {
            self
        } else {
            BoardState { finished: self.finished, current: Some(seq![p]) }
        }
    }

    /// Extending the glyph being drawn by `p`: only an active board changes.
    pub open spec fn add_point(self, p: Point) -> BoardState {
        match self.current {
            Some(g) => BoardState { finished: self.finished, current: Some(g.push(p)) },
            None => self,
        }
    }

    /// Committing the glyph being drawn on top of the finished ones.
    pub open spec fn finish(self) -> BoardState {
        match self.current {
            Some(g) => BoardState { finished: self.finished.push(g), current: None },
            None => self,
        }
    }

    /// Extending the glyph being drawn by each of `ps` in turn.
    pub open spec fn add_points(self, ps: Seq<Point>) -> BoardState
        decreases ps.len(),
    {
        if ps.len() == 0 {
            self
        } else {
            self.add_point(ps[0]).add_points(ps.drop_first())
        }
    }
}

/// The finished glyphs of an idle board, in the order they were drawn.
#[derive(Debug)]
pub struct StaticBoard {
    glyphs: Vec<Glyph>,
}

/// The finished glyphs and the glyph being drawn.
#[derive(Debug)]
pub struct ActiveBoard {
    board: StaticBoard,
    current_glyph: Glyph,
}

impl View for StaticBoard {
    type V = Seq<Seq<Point>>;

    closed spec fn view(&self) -> Seq<Seq<Point>> {
        self.glyphs@.map_values(|g: Glyph| g@)
    }
}

impl View for ActiveBoard {
    type V = (Seq<Seq<Point>>, Seq<Point>);

    closed spec fn view(&self) -> (Seq<Seq<Point>>, Seq<Point>) {
        (self.board@, self.current_glyph@)
    }
}

impl StaticBoard {
    pub fn new() -> (r: Self)
        ensures
            r@ == Seq::<Seq<Point>>::empty(),
    {
        let r = StaticBoard { glyphs: Vec::new() };
        assert(r@ =~= Seq::<Seq<Point>>::empty());
        r
    }

    pub fn begin_drawing(self, initial_point: Point) -> (r: ActiveBoard)
        ensures
            r@ == (self@, seq![initial_point]),
    {
        let current_glyph = Glyph { points: vec![initial_point] };
        assert(current_glyph@ =~= seq![initial_point]);
        ActiveBoard { board: self, current_glyph }
    }

    /// The glyphs, first drawn first.
    pub fn glyphs(&self) -> (r: &Vec<Glyph>)
        ensures
            r@.len() == self@.len(),
            forall|i: int| 0 <= i < r@.len() ==> #[trigger] r@[i]@ == self@[i],
    {
        &self.glyphs
    }
}

impl ActiveBoard {
    pub fn add_point(&mut self, point: Point)
        ensures
            final(self)@ == (old(self)@.0, old(self)@.1.push(point)),
    {
        take_with(&mut self.current_glyph, |g: Glyph| -> (r: Glyph)
            ensures
                r@ == g@.push(point),
            { g.extended(point) });
    }

    pub fn current_glyph(&self) -> (r: &Glyph)
        ensures
            r@ == self@.1,
    {
        &self.current_glyph
    }

    /// The finished glyphs with the current one committed on top.
    pub fn finish(self) -> (r: StaticBoard)
        ensures
            r@ == self@.0.push(self@.1),
    {
        let mut board = self.board;
        board.glyphs.push(self.current_glyph);
        assert(board@ =~= self@.0.push(self@.1));
        board
    }

    /// The finished glyphs, without the one being drawn.
    pub fn finished(&self) -> (r: &StaticBoard)
        ensures
            r@ == self@.0,
    {
        &self.board
    }
}

/// The board: idle, or with one glyph being drawn.
#[derive(Debug)]
pub enum Board {
    Static(StaticBoard),
    Active(ActiveBoard),
}

impl View for Board {
    type V = BoardState;

    open spec fn view(&self) -> BoardState {
        match self {
            Board::Static(b) => BoardState { finished: b@, current: None },
            Board::Active(b) => BoardState { finished: b@.0, current: Some(b@.1) },
        }
    }
}

/// Relies on take_mut::take: `f` receives the value that `*v` held, and what
/// it returns is stored in `*v` (the process aborts if `f` panics).
#[verifier::external_body]
fn take_with<T, F: FnOnce(T) -> T>(v: &mut T, f: F)
    requires
        f.requires((*old(v),)),
    ensures
        f.ensures((*old(v),), *final(v)),
{
    take_mut::take(v, f)
}

impl Board {
    pub fn new() -> (r: Self)
        ensures
            r@ == BoardState::initial(),
    {
        Board::Static(StaticBoard::new())
    }

    /// The idle board `board` with a glyph started at `p`.
    fn started(board: Board, p: Point) -> (r: Board)
        requires
            board is Static,
        ensures
            r@ == board@.begin_drawing(p),
    {
        match board {
            Board::Static(b) => Board::Active(b.begin_drawing(p)),
            Board::Active(b) => Board::Active(b),
        }
    }

    /// The active board `board` with its glyph committed.
    fn finished(board: Board) -> (r: Board)
        requires
            board is Active,
        ensures
            r@ == board@.finish(),
    {
        match board {
            Board::Active(b) => Board::Static(b.finish()),
            Board::Static(b) => Board::Static(b),
        }
    }

    /// Starts a glyph at `initial_point`; refused while one is being drawn.
    pub fn begin_drawing(&mut self, initial_point: Point) -> (r: Result<(), WrongBoardStateError>)
        ensures
            final(self)@ == old(self)@.begin_drawing(initial_point),
            r is Ok <==> !old(self)@.is_active(),
            r is Err ==> *final(self) == *old(self) && r->Err_0.spec_expects_static()
                && r->Err_0.spec_description() == Some("cannot start drawing another glyph"@),
    {
        if self.is_active() {
            return Err(WrongBoardStateError::expected_static(Some("cannot start drawing another glyph")));
        }
        take_with(self, |board: Board| -> (r: Board)
            requires
                board is Static,
            ensures
                r@ == board@.begin_drawing(initial_point),
            { Board::started(board, initial_point) });
        Ok(())
    }

    /// Appends `point` to the glyph being drawn; refused on an idle board.
    pub fn add_point(&mut self, point: Point) -> (r: Result<(), WrongBoardStateError>)
        ensures
            final(self)@ == old(self)@.add_point(point),
            r is Ok <==> old(self)@.is_active(),
            r is Err ==> *final(self) == *old(self) && !r->Err_0.spec_expects_static()
                && r->Err_0.spec_description() == Some("cannot add a point to the current glyph"@),
    {
        match self {
            Board::Active(board) => {
                board.add_point(point);
                Ok(())
            },
            Board::Static(_) => Err(WrongBoardStateError::expected_active(Some("cannot add a point to the current glyph"))),
        }
    }

    /// Commits the glyph being drawn; refused on an idle board.
    pub fn finish(&mut self) -> (r: Result<(), WrongBoardStateError>)
        ensures
            final(self)@ == old(self)@.finish(),
            r is Ok <==> old(self)@.is_active(),
            r is Err ==> *final(self) == *old(self) && !r->Err_0.spec_expects_static()
                && r->Err_0.spec_description() == Some("cannot finish drawing the current glyph"@),
    {
        if !self.is_active() {
            return Err(WrongBoardStateError::expected_active(Some("cannot finish drawing the current glyph")));
        }
        take_with(self, |board: Board| -> (r: Board)
            requires
                board is Active,
            ensures
                r@ == board@.finish(),
            { Board::finished(board) });
        Ok(())
    }

    pub fn is_active(&self) -> (r: bool)
        ensures
            r == self@.is_active(),
            r == (self is Active),
    {
        match self {
            Board::Active(_) => true,
            Board::Static(_) => false,
        }
    }

    /// The glyph being drawn; refused on an idle board.
    pub fn current_glyph(&self) -> (r: Result<&Glyph, WrongBoardStateError>)
        ensures
            match r {
                Ok(g) => self@.current == Some(g@),
                Err(e) => self@.current is None && !e.spec_expects_static()
                    && e.spec_description() == Some("there is no current glyph"@),
            },
    {
        match self {
            Board::Active(board) => Ok(board.current_glyph()),
            Board::Static(_) => Err(WrongBoardStateError::expected_active(Some("there is no current glyph"))),
        }
    }
}

/// Adding points one by one to the glyph being drawn appends them in order
/// and leaves the finished glyphs alone.
pub proof fn lemma_add_points(s: BoardState, ps: Seq<Point>)
    requires
        s.is_active(),
    ensures
        s.add_points(ps) == (BoardState { finished: s.finished, current: Some(s.current->0 + ps) }),
    decreases ps.len(),
{
    if ps.len() > 0 {
        let t = s.add_point(ps[0]);
        lemma_add_points(t, ps.drop_first());
        assert(t.current->0 + ps.drop_first() =~= s.current->0 + ps);
    } else {
        assert(s.current->0 + ps =~= s.current->0);
    }
}

/// Drawing a stroke through `pts` on an idle board (starting at the first
/// point, adding the others in order, then finishing) commits exactly one
/// more glyph, whose points are `pts` in order, and leaves the board idle.
pub proof fn lemma_stroke_round_trip(s: BoardState, pts: Seq<Point>)
    requires
        !s.is_active(),
        pts.len() >= 1,
    ensures
        s.begin_drawing(pts[0]).add_points(pts.drop_first()).finish()
            == (BoardState { finished: s.finished.push(pts), current: None }),
{
    let t = s.begin_drawing(pts[0]);
    lemma_add_points(t, pts.drop_first());
    assert(seq![pts[0]] + pts.drop_first() =~= pts);
}

/// A fresh board is idle, and starting a glyph on it makes it active with
/// that glyph holding the one starting point.
pub proof fn lemma_fresh_board_begins(p: Point)
    ensures
        !BoardState::initial().is_active(),
        BoardState::initial().begin_drawing(p).is_active(),
        BoardState::initial().begin_drawing(p).current == Some(seq![p]),
        BoardState::initial().begin_drawing(p).finished.len() == 0,
{
}

} // verus!
