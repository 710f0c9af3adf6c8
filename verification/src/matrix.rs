//! The rain field: a fixed population of falling streaks over a character
//! grid, advanced one frame at a time around the cells that are protected.

use vstd::prelude::*;

use crate::glyph::{glyphs, is_glyph, BLANK, GLYPH_COUNT};
use crate::random::random_in;
use crate::region::{protected_at, region_contains, Area};

verus! {

/// Milliseconds between two frames of a running animation.
pub const FRAME_DELAY_MS: u64 = 50;

/// One falling column of the animation.
#[derive(Clone, Copy, Debug, PartialEq, Eq)]
pub struct Streak {
    /// Column of the head; fixed until the streak respawns.
    pub x: u16,
    /// Row of the head; negative while the streak is still above the grid.
    pub y: i32,
    /// Rows travelled per frame.
    pub speed: u16,
    /// Trail length: a respawned streak starts this many rows above the grid.
    pub length: u16,
}

impl Streak {
    /// A streak that belongs to a grid `width` columns wide: its column is on
    /// the grid, it moves, and its head is at most one step past the last row
    /// that a cell can have.
    pub open spec fn wf(self, width: u16) -> bool {
        &&& self.x < width
        &&& self.speed >= 1
        &&& -(u16::MAX as int) <= self.y <= u16::MAX + self.speed
    }

    /// The head stands on a protected cell. Such a streak only moves on during
    /// the frame: it neither erases, draws nor respawns.
    pub open spec fn sheltered(self, areas: Seq<Area>) -> bool {
        self.y >= 0 && protected_at(areas, self.x as int, self.y as int)
    }

    /// The frame blanks the cell that the head leaves.
    pub open spec fn erases(self, areas: Seq<Area>) -> bool {
        self.y >= 0 && !protected_at(areas, self.x as int, self.y as int)
    }

    /// Row of the head after one step.
    pub open spec fn advanced(self) -> int {
        self.y + self.speed
    }

    /// The frame draws a symbol at the cell that the head arrives at.
    pub open spec fn draws(self, height: u16, areas: Seq<Area>) -> bool {
        &&& !self.sheltered(areas)
        &&& 0 <= self.advanced() < height
        &&& !protected_at(areas, self.x as int, self.advanced())
    }

    /// The head has left the grid and the streak respawns above it.
    pub open spec fn resets(self, height: u16, areas: Seq<Area>) -> bool {
        !self.sheltered(areas) && self.advanced() >= height
    }

    /// Row of the head when the frame is over.
    pub open spec fn next_y(self, height: u16, areas: Seq<Area>) -> int {
        if self.resets(height, areas) {
            -(self.length as int)
        } else {
            self.advanced()
        }
    }

    /// A streak as the field creates it: on the grid's columns, a few rows
    /// above it, with a speed of one to three rows and a trail of five to
    /// nineteen.
    pub open spec fn fresh(self, width: u16) -> bool {
        &&& self.x < width
        &&& -20 < self.y <= -5
        &&& 1 <= self.speed < 4
        &&& 5 <= self.length < 20
    }

    /// The cells that the streak touches during a frame, each with its
    /// brightness: first the blanked one, then the drawn one.
    pub open spec fn cells(self, height: u16, areas: Seq<Area>) -> Seq<(u16, i32, bool)> {
        let erased = if self.erases(areas) {
            seq![(self.x, self.y, false)]
        } else {
            Seq::empty()
        };
        let drawn = if self.draws(height, areas) {
            seq![(self.x, self.advanced() as i32, true)]
        } else {
            Seq::empty()
        };
        erased + drawn
    }

    /// `after` is this streak one frame later: moved as the frame rules say,
    /// with the same speed and trail, and in the same column unless it
    /// respawned.
    pub open spec fn moved_to(self, after: Streak, height: u16, areas: Seq<Area>) -> bool {
        &&& after.y == self.next_y(height, areas)
        &&& after.speed == self.speed
        &&& after.length == self.length
        &&& !self.resets(height, areas) ==> after.x == self.x
    }
}

/// What one streak asks of the screen during a frame, and whether it respawns.
#[derive(Clone, Copy, Debug, PartialEq, Eq)]
pub struct Step {
    /// The cell `(x, y)` to blank, if any.
    pub erase: Option<(u16, i32)>,
    /// The cell `(x, y)` to draw a symbol at, if any.
    pub draw: Option<(u16, i32)>,
    /// Whether the streak left the grid and needs a new column.
    pub reset: bool,
}

/// Tests a cell whose row may lie outside the range that areas are written in.
fn row_protected(x: u16, y: i32, protected_areas: &[Area]) -> (hit: bool)
    ensures
        hit == protected_at(protected_areas@, x as int, y as int),
{
    if 0 <= y && y <= 0xFFFF {
        MatrixRain::is_position_protected(x, y as u16, protected_areas)
    } else {
        false
    }
}

impl Streak {
    /// Moves the streak through one frame: the old cell is blanked unless it is
    /// protected, the head advances by `speed`, the new cell is drawn if it is
    /// on the grid and unprotected, and a head at or below row `height`
    /// respawns at row `-length`. A streak whose old cell is protected only
    /// advances. The column is left as it was: a respawning streak gets its new
    /// column from the caller.
    pub fn advance(&mut self, height: u16, protected_areas: &[Area]) -> (step: Step)
        requires
            -(u16::MAX as int) <= old(self).y <= u16::MAX + old(self).speed,
        ensures
            final(self).x == old(self).x,
            final(self).speed == old(self).speed,
            final(self).length == old(self).length,
            final(self).y == old(self).next_y(height, protected_areas@),
            -(u16::MAX as int) <= final(self).y <= u16::MAX + final(self).speed,
            step.erase == (if old(self).erases(protected_areas@) {
                Some((old(self).x, old(self).y))
            } else {
                None
            }),
            step.draw == (if old(self).draws(height, protected_areas@) {
                Some((old(self).x, old(self).advanced() as i32))
            } else {
                None
            }),
            step.reset == old(self).resets(height, protected_areas@),
    {
        let x = self.x;
        let old_y = self.y;
        let new_y: i32 = old_y + self.speed as i32;
        if old_y >= 0 && row_protected(x, old_y, protected_areas) {
            self.y = new_y;
            return Step { erase: None, draw: None, reset: false };
        }
        let erase = if old_y >= 0 {
            Some((x, old_y))
        } else {
            None
        };
        let draw = if new_y >= 0 && new_y < height as i32 && !row_protected(
            x,
            new_y,
            protected_areas,
        ) {
            Some((x, new_y))
        } else {
            None
        };
        let reset = new_y >= height as i32;
        if reset {
            self.y = -(self.length as i32);
        } else {
            self.y = new_y;
        }
        Step { erase, draw, reset }
    }
}

/// One character written to the screen: a symbol in the bright colour, or a
/// blank in the dim one.
#[derive(Clone, Copy, Debug, PartialEq, Eq)]
pub struct CellWrite {
    /// Column of the cell.
    pub x: u16,
    /// Row of the cell.
    pub y: i32,
    /// The character to write.
    pub glyph: char,
    /// Bright for a drawn head, dim for a blanked cell.
    pub bright: bool,
}

impl CellWrite {
    /// Where the write goes and how bright it is.
    pub open spec fn cell(self) -> (u16, i32, bool) {
        (self.x, self.y, self.bright)
    }

    /// A bright write carries a symbol of the catalogue, a dim one the blank.
    pub open spec fn wf(self) -> bool {
        if self.bright {
            is_glyph(self.glyph)
        } else {
            self.glyph == BLANK
        }
    }

    /// The row as a screen coordinate, if the screen can have such a row.
    pub fn screen_row(&self) -> (row: Option<u16>)
        ensures
            row == (if 0 <= self.y <= u16::MAX {
                Some(self.y as u16)
            } else {
                None
            }),
    {
        if 0 <= self.y && self.y <= 0xFFFF {
            Some(self.y as u16)
        } else {
            None
        }
    }
}

/// The cells of a sequence of writes, in order.
pub open spec fn cells_of(writes: Seq<CellWrite>) -> Seq<(u16, i32, bool)> {
    writes.map_values(|w: CellWrite| w.cell())
}

/// The cells that a frame touches: those of each streak, in the streaks' order.
pub open spec fn frame_cells(drops: Seq<Streak>, height: u16, areas: Seq<Area>) -> Seq<
    (u16, i32, bool),
>
    decreases drops.len(),
{
    if drops.len() == 0 {
        Seq::empty()
    } else {
        frame_cells(drops.drop_last(), height, areas) + drops.last().cells(height, areas)
    }
}

/// `after` is the population `before` one frame later.
pub open spec fn frame_moved(
    before: Seq<Streak>,
    after: Seq<Streak>,
    width: u16,
    height: u16,
    areas: Seq<Area>,
) -> bool {
    &&& after.len() == before.len()
    &&& forall|i: int|
        0 <= i < before.len() ==> (#[trigger] after[i]).wf(width) && before[i].moved_to(
            after[i],
            height,
            areas,
        )
}

/// `writes` is what the frame over `before` puts on the screen: exactly the
/// frame's cells, each with a character that fits its brightness.
pub open spec fn frame_drawn(
    before: Seq<Streak>,
    writes: Seq<CellWrite>,
    height: u16,
    areas: Seq<Area>,
) -> bool {
    &&& cells_of(writes) == frame_cells(before, height, areas)
    &&& forall|k: int| 0 <= k < writes.len() ==> (#[trigger] writes[k]).wf()
}

/// No frame touches a protected cell, a bright cell is always on the grid, and
/// a dim cell is one that a head stood on.
pub proof fn lemma_frame_spares_protected(drops: Seq<Streak>, height: u16, areas: Seq<Area>)
    ensures
        forall|k: int|
            0 <= k < frame_cells(drops, height, areas).len() ==> {
                let cell = #[trigger] frame_cells(drops, height, areas)[k];
                &&& !protected_at(areas, cell.0 as int, cell.1 as int)
                &&& cell.1 >= 0
                &&& cell.2 ==> cell.1 < height
            },
    decreases drops.len(),
{
    if drops.len() > 0 {
        lemma_frame_spares_protected(drops.drop_last(), height, areas);
        let earlier = frame_cells(drops.drop_last(), height, areas);
        let last = drops.last().cells(height, areas);
        assert forall|k: int| 0 <= k < frame_cells(drops, height, areas).len() implies {
            let cell = #[trigger] frame_cells(drops, height, areas)[k];
            &&& !protected_at(areas, cell.0 as int, cell.1 as int)
            &&& cell.1 >= 0
            &&& cell.2 ==> cell.1 < height
        } by {
            if k < earlier.len() {
                assert(frame_cells(drops, height, areas)[k] == earlier[k]);
            } else {
                assert(frame_cells(drops, height, areas)[k] == last[k - earlier.len()]);
            }
        }
    }
}

/// A streak whose head leaves the grid respawns `length` rows above it and
/// draws no symbol in that frame. A head that stands at or below the last row
/// and is not on a protected cell always leaves the grid.
pub proof fn lemma_reset_draws_nothing(streak: Streak, height: u16, areas: Seq<Area>)
    requires
        !streak.sheltered(areas),
        streak.advanced() >= height,
    ensures
        streak.resets(height, areas),
        streak.next_y(height, areas) == -(streak.length as int),
        !streak.draws(height, areas),
        forall|k: int|
            0 <= k < streak.cells(height, areas).len() ==> !(#[trigger] streak.cells(
                height,
                areas,
            )[k]).2,
{
}

/// A streak on a protected cell only moves on: it touches no cell and keeps
/// falling, even past the last row.
pub proof fn lemma_sheltered_only_advances(streak: Streak, height: u16, areas: Seq<Area>)
    requires
        streak.sheltered(areas),
    ensures
        streak.next_y(height, areas) == streak.advanced(),
        streak.cells(height, areas) =~= Seq::empty(),
        !streak.resets(height, areas),
{
}

/// A cell outside every area is written whenever a head leaves it or reaches
/// it: the left cell is blanked, and the reached cell, if it is on the grid, is
/// drawn.
pub proof fn lemma_unprotected_cells_are_written(streak: Streak, height: u16, areas: Seq<Area>)
    requires
        streak.y >= 0,
        !protected_at(areas, streak.x as int, streak.y as int),
    ensures
        streak.cells(height, areas).len() > 0,
        streak.cells(height, areas)[0] == (streak.x, streak.y, false),
        0 <= streak.advanced() < height && !protected_at(
            areas,
            streak.x as int,
            streak.advanced(),
        ) ==> streak.cells(height, areas) =~= seq![
            (streak.x, streak.y, false),
            (streak.x, streak.advanced() as i32, true),
        ],
{
}

/// After a frame the population is as large as before, every streak is still
/// in a column of the grid, and a head is at or below the last row only if it
/// moved on from a protected cell.
pub proof fn lemma_frame_keeps_bounds(
    before: Seq<Streak>,
    after: Seq<Streak>,
    width: u16,
    height: u16,
    areas: Seq<Area>,
)
    requires
        frame_moved(before, after, width, height, areas),
    ensures
        after.len() == before.len(),
        forall|i: int| 0 <= i < after.len() ==> (#[trigger] after[i]).x < width,
        forall|i: int|
            0 <= i < after.len() && !before[i].sheltered(areas) ==> (#[trigger] after[i]).y < height
                || after[i].y == -(after[i].length as int),
{
    assert forall|i: int| 0 <= i < after.len() implies (#[trigger] after[i]).x < width by {
        assert(after[i].wf(width));
    }
    assert forall|i: int| 0 <= i < after.len() && !before[i].sheltered(areas) implies (
    #[trigger] after[i]).y < height || after[i].y == -(after[i].length as int) by {
        assert(after[i].wf(width));
        assert(before[i].moved_to(after[i], height, areas));
    }
}

} // verus!

verus! {

/// The mathematical content of a rain field.
pub struct RainView {
    /// Columns of the grid.
    pub width: u16,
    /// Rows of the grid.
    pub height: u16,
    /// The streaks, each in its slot.
    pub drops: Seq<Streak>,
    /// The protected areas, in the order of their registration.
    pub areas: Seq<Area>,
    /// Cleared by `stop`; a field that is not running draws no frame.
    pub running: bool,
    /// Set by the first `start`.
    pub started: bool,
}

impl RainView {
    /// One streak for every three columns, each of them on the grid.
    pub open spec fn wf(self) -> bool {
        &&& self.drops.len() == self.width / 3
        &&& forall|i: int| 0 <= i < self.drops.len() ==> (#[trigger] self.drops[i]).wf(self.width)
    }

    /// This field after `stop`.
    pub open spec fn stopped(self) -> RainView {
        RainView { running: false, ..self }
    }

    /// `after` and `writes` are this field and its output one frame later. A
    /// field that was stopped stays as it is and writes nothing.
    pub open spec fn ticked(self, after: RainView, writes: Seq<CellWrite>) -> bool {
        if self.running {
            &&& after == (RainView { drops: after.drops, ..self })
            &&& frame_moved(self.drops, after.drops, self.width, self.height, self.areas)
            &&& frame_drawn(self.drops, writes, self.height, self.areas)
        } else {
            after == self && writes.len() == 0
        }
    }
}

/// A frame changes nothing of a field but its streaks: the grid, the areas and
/// the two flags stay, the population keeps its size, and a valid field stays
/// valid.
pub proof fn lemma_tick_keeps_field(field: RainView, after: RainView, writes: Seq<CellWrite>)
    requires
        field.wf(),
        field.ticked(after, writes),
    ensures
        after.wf(),
        after.drops.len() == field.drops.len(),
        after.width == field.width,
        after.height == field.height,
        after.areas == field.areas,
        after.running == field.running,
        after.started == field.started,
{
    if field.running {
        assert forall|i: int| 0 <= i < after.drops.len() implies (#[trigger] after.drops[i]).wf(
            after.width,
        ) by {}
    }
}

/// Once a field is stopped, a frame writes nothing and changes nothing, and
/// the field is still stopped afterwards.
pub proof fn lemma_stopped_field_is_silent(
    field: RainView,
    after: RainView,
    writes: Seq<CellWrite>,
)
    requires
        field.stopped().ticked(after, writes),
    ensures
        writes.len() == 0,
        after == field.stopped(),
        !after.running,
{
}

/// No frame of a field writes to a protected cell, and every symbol it draws
/// is on the grid.
pub proof fn lemma_tick_spares_protected(field: RainView, after: RainView, writes: Seq<CellWrite>)
    requires
        field.ticked(after, writes),
    ensures
        forall|k: int|
            0 <= k < writes.len() ==> {
                let w = #[trigger] writes[k];
                &&& !protected_at(field.areas, w.x as int, w.y as int)
                &&& w.y >= 0
                &&& w.bright ==> w.y < field.height
            },
{
    if field.running {
        lemma_frame_spares_protected(field.drops, field.height, field.areas);
        assert forall|k: int| 0 <= k < writes.len() implies {
            let w = #[trigger] writes[k];
            &&& !protected_at(field.areas, w.x as int, w.y as int)
            &&& w.y >= 0
            &&& w.bright ==> w.y < field.height
        } by {
            assert(cells_of(writes)[k] == writes[k].cell());
        }
    }
}

/// A field of falling streaks over a grid of `width` by `height` cells.
pub struct MatrixRain {
    width: u16,
    height: u16,
    drops: Vec<Streak>,
    running: bool,
    started: bool,
    protected_areas: Vec<Area>,
}

impl View for MatrixRain {
    type V = RainView;

    closed spec fn view(&self) -> RainView {
        RainView {
            width: self.width,
            height: self.height,
            drops: self.drops@,
            areas: self.protected_areas@,
            running: self.running,
            started: self.started,
        }
    }
}

impl MatrixRain {
    #[verifier::type_invariant]
    spec fn inv(&self) -> bool {
        &&& self.drops@.len() == self.width / 3
        &&& forall|i: int| 0 <= i < self.drops@.len() ==> (#[trigger] self.drops@[i]).wf(self.width)
    }

    /// Builds a field with one streak for every three columns. Each streak
    /// starts in a random column, five to nineteen rows above the grid, with a
    /// random speed and trail. No area is protected yet.
    pub fn new(width: u16, height: u16) -> (rain: Self)
        ensures
            rain@.wf(),
            rain@.width == width,
            rain@.height == height,
            rain@.drops.len() == width / 3,
            forall|i: int| 0 <= i < rain@.drops.len() ==> (#[trigger] rain@.drops[i]).fresh(width),
            rain@.areas == Seq::<Area>::empty(),
            rain@.running,
            !rain@.started,
    {
        let mut drops: Vec<Streak> = Vec::new();
        let count: u16 = width / 3;
        let mut i: u16 = 0;
        while i < count
            invariant
                i <= count,
                count == width / 3,
                drops@.len() == i,
                forall|j: int| 0 <= j < drops@.len() ==> (#[trigger] drops@[j]).fresh(width),
            decreases count - i,
        {
            let x = random_in(0, width);
            let above = random_in(5, 20);
            let speed = random_in(1, 4);
            let length = random_in(5, 20);
            drops.push(Streak { x, y: -(above as i32), speed, length });
            i += 1;
        }
        MatrixRain {
            width,
            height,
            drops,
            running: true,
            started: false,
            protected_areas: Vec::new(),
        }
    }

    /// Registers one more protected area. Nothing else changes.
    pub fn protect_area(&mut self, x1: u16, y1: u16, x2: u16, y2: u16)
        ensures
            final(self)@ == (RainView {
                areas: old(self)@.areas.push((x1, y1, x2, y2)),
                ..old(self)@
            }),
    {
        proof {
            use_type_invariant(&*self);
        }
        let mut areas: Vec<Area> = Vec::new();
        std::mem::swap(&mut self.protected_areas, &mut areas);
        areas.push((x1, y1, x2, y2));
        self.protected_areas = areas;
    }

    /// Tests a cell against a list of areas.
    pub fn is_position_protected(x: u16, y: u16, protected_areas: &[Area]) -> (hit: bool)
        ensures
            hit == protected_at(protected_areas@, x as int, y as int),
    {
        let mut i: usize = 0;
        while i < protected_areas.len()
            invariant
                i <= protected_areas.len(),
                forall|j: int|
                    0 <= j < i ==> !region_contains(
                        #[trigger] protected_areas@[j],
                        x as int,
                        y as int,
                    ),
            decreases protected_areas.len() - i,
        {
            let (x1, y1, x2, y2) = protected_areas[i];
            if x >= x1 && x <= x2 && y >= y1 && y <= y2 {
                return true;
            }
            i += 1;
        }
        false
    }

    /// Moves every streak through one frame and returns what the frame writes,
    /// in the streaks' order: for each streak the blank for the cell it left,
    /// then the symbol for the cell it reached. A streak that left the grid
    /// respawns in a random column. The symbols are picked at random from the
    /// catalogue.
    pub fn draw_frame(
        drops: &mut Vec<Streak>,
        width: u16,
        height: u16,
        protected_areas: &[Area],
    ) -> (writes: Vec<CellWrite>)
        requires
            forall|i: int| 0 <= i < old(drops)@.len() ==> (#[trigger] old(drops)@[i]).wf(width),
        ensures
            frame_moved(old(drops)@, final(drops)@, width, height, protected_areas@),
            frame_drawn(old(drops)@, writes@, height, protected_areas@),
            forall|k: int|
                0 <= k < writes@.len() ==> !protected_at(
                    protected_areas@,
                    (#[trigger] writes@[k]).x as int,
                    writes@[k].y as int,
                ),
    {
        let ghost before = drops@;
        let ghost areas = protected_areas@;
        let table = glyphs();
        let mut writes: Vec<CellWrite> = Vec::new();
        let mut i: usize = 0;
        while i < drops.len()
            invariant
                i <= drops@.len(),
                drops@.len() == before.len(),
                areas == protected_areas@,
                table@.len() == GLYPH_COUNT,
                forall|c: int| 0 <= c < table@.len() ==> is_glyph(#[trigger] table@[c]),
                forall|j: int| 0 <= j < before.len() ==> (#[trigger] before[j]).wf(width),
                forall|j: int| i <= j < before.len() ==> drops@[j] == before[j],
                forall|j: int|
                    0 <= j < i ==> (#[trigger] drops@[j]).wf(width) && before[j].moved_to(
                        drops@[j],
                        height,
                        areas,
                    ),
                cells_of(writes@) == frame_cells(before.take(i as int), height, areas),
                forall|k: int| 0 <= k < writes@.len() ==> (#[trigger] writes@[k]).wf(),
            decreases drops@.len() - i,
        {
            let mut streak = drops[i];
            let ghost start = streak;
            let ghost drawn = writes@;
            assert(start == before[i as int]);
            let step = streak.advance(height, protected_areas);
            if let Some((x, y)) = step.erase {
                writes.push(CellWrite { x, y, glyph: BLANK, bright: false });
            }
            if let Some((x, y)) = step.draw {
                let pick = random_in(0, GLYPH_COUNT);
                let glyph = table[pick as usize];
                writes.push(CellWrite { x, y, glyph, bright: true });
            }
            if step.reset {
                streak.x = random_in(0, width);
            }
            drops[i] = streak;
            proof {
                let grown = before.take(i as int + 1);
                assert(grown.drop_last() =~= before.take(i as int));
                assert(grown.last() == start);
                assert(cells_of(writes@) =~= cells_of(drawn) + start.cells(height, areas));
            }
            i += 1;
        }
        proof {
            assert(before.take(i as int) =~= before);
            lemma_frame_spares_protected(before, height, areas);
            assert forall|k: int| 0 <= k < writes@.len() implies !protected_at(
                areas,
                (#[trigger] writes@[k]).x as int,
                writes@[k].y as int,
            ) by {
                assert(cells_of(writes@)[k] == writes@[k].cell());
            }
        }
        writes
    }

    /// Draws one frame of a running field and returns its writes; a stopped
    /// field is left untouched and writes nothing.
    pub fn tick(&mut self) -> (writes: Vec<CellWrite>)
        ensures
            old(self)@.ticked(final(self)@, writes@),
            forall|k: int|
                0 <= k < writes@.len() ==> !protected_at(
                    old(self)@.areas,
                    (#[trigger] writes@[k]).x as int,
                    writes@[k].y as int,
                ),
    {
        proof {
            use_type_invariant(&*self);
        }
        if !self.running {
            return Vec::new();
        }
        // The field is taken apart and put together again, so that the frame
        // has the streaks to itself while it moves them.
        let mut taken = MatrixRain {
            width: 0,
            height: 0,
            drops: Vec::new(),
            running: false,
            started: false,
            protected_areas: Vec::new(),
        };
        std::mem::swap(self, &mut taken);
        let MatrixRain { width, height, mut drops, running, started, protected_areas } = taken;
        let writes = Self::draw_frame(&mut drops, width, height, protected_areas.as_slice());
        *self = MatrixRain { width, height, drops, running, started, protected_areas };
        writes
    }

    /// Marks the field as started. Returns whether a frame loop is to be
    /// launched: only for the first start of a field that has not been stopped.
    pub fn start(&mut self) -> (launch: bool)
        ensures
            launch == (!old(self)@.started && old(self)@.running),
            final(self)@ == (RainView { started: true, ..old(self)@ }),
    {
        proof {
            use_type_invariant(&*self);
        }
        let launch = !self.started && self.running;
        self.started = true;
        launch
    }

    /// Stops the field for good: it draws no further frame.
    pub fn stop(&mut self)
        ensures
            final(self)@ == old(self)@.stopped(),
    {
        proof {
            use_type_invariant(&*self);
        }
        self.running = false;
    }

    /// Columns of the grid.
    pub fn width(&self) -> (width: u16)
        ensures
            width == self@.width,
    {
        self.width
    }

    /// Rows of the grid.
    pub fn height(&self) -> (height: u16)
        ensures
            height == self@.height,
    {
        self.height
    }

    /// Whether the field still draws frames.
    pub fn is_running(&self) -> (running: bool)
        ensures
            running == self@.running,
    {
        self.running
    }

    /// The streaks, each in its slot. Every one of them belongs to the grid.
    pub fn drops(&self) -> (drops: &Vec<Streak>)
        ensures
            drops@ == self@.drops,
            self@.wf(),
    {
        proof {
            use_type_invariant(self);
            assert(self@.drops == self.drops@);
        }
        &self.drops
    }

    /// The protected areas, in the order of their registration.
    pub fn protected_areas(&self) -> (areas: &Vec<Area>)
        ensures
            areas@ == self@.areas,
    {
        &self.protected_areas
    }
}

} // verus!
