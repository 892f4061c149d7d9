//! Selection and viewport of a table over a dataset.

use crate::scroll::Scroll;
use polars::frame::column::Column;
use polars::frame::DataFrame;
use vstd::prelude::*;

verus! {

/// The dataset type of polars. The table carries it as an opaque value and
/// asks it only for its number of rows.
#[verifier::external_type_specification]
#[verifier::external_body]
pub struct ExDataFrame(DataFrame);

/// The column type of polars. Nothing here reads one; it is declared because
/// a dataset can be indexed by its columns.
#[verifier::external_type_specification]
#[verifier::external_body]
pub struct ExColumn(Column);

/// The error type of polars. Nothing here reads one; it is declared because
/// arithmetic on columns can fail with it.
#[verifier::external_type_specification]
#[verifier::external_body]
pub struct ExPolarsError(polars::error::PolarsError);

/// Number of rows that a dataset holds.
pub uninterp spec fn frame_height(frame: DataFrame) -> usize;

/// `DataFrame::height` of polars returns the number of rows that the dataset
/// holds: it reads the stored height and changes nothing.
pub assume_specification[ DataFrame::height ](frame: &DataFrame) -> (rows: usize)
    ensures
        rows == frame_height(*frame),
;

/// Index of the last row among `rows` rows; 0 where there is none.
pub open spec fn last_row(rows: nat) -> int {
    if rows == 0 {
        0
    } else {
        rows - 1
    }
}

/// The row nearest to `target` among `rows` rows, for `target >= 0`.
pub open spec fn clamped_row(target: int, rows: nat) -> int {
    if target <= last_row(rows) {
        target
    } else {
        last_row(rows)
    }
}

/// One move of the selection.
pub enum Step {
    /// So many rows up.
    Up(usize),
    /// So many rows down.
    Down(usize),
    /// To the first row.
    First,
    /// To the last row.
    Last,
}

/// The row that is selected after `step` is taken from the row `select` among
/// `rows` rows: moves stop at the first and at the last row.
pub open spec fn stepped(select: int, rows: nat, step: Step) -> int {
    match step {
        Step::Up(len) => clamped_row(
            if select >= len {
                select - len
            } else {
                0
            },
            rows,
        ),
        Step::Down(len) => clamped_row(select + len, rows),
        Step::First => 0,
        Step::Last => last_row(rows),
    }
}

/// The row that is selected after `steps` are taken in turn from the row
/// `select` among `rows` rows.
pub open spec fn walked(select: int, rows: nat, steps: Seq<Step>) -> int
    decreases steps.len(),
{
    if steps.len() == 0 {
        select
    } else {
        stepped(walked(select, rows, steps.drop_last()), rows, steps.last())
    }
}

/// Smallest offset at which a viewport of `rendered` rows still shows the row
/// `select`. A viewport of no rows counts as one of a single row.
pub open spec fn lowest_offset(select: int, rendered: int) -> int {
    if rendered <= 1 {
        select
    } else if select >= rendered - 1 {
        select - (rendered - 1)
    } else {
        0
    }
}

/// The offset nearest to `offset` at which a viewport of `rendered` rows shows
/// the row `select`.
pub open spec fn adjusted_offset(offset: int, select: int, rendered: int) -> int {
    if offset < lowest_offset(select, rendered) {
        lowest_offset(select, rendered)
    } else if offset > select {
        select
    } else {
        offset
    }
}

/// Whether a viewport of `rendered` rows that starts at `offset` shows the row
/// `select`.
pub open spec fn shows(offset: int, select: int, rendered: int) -> bool {
    offset <= select <= offset + rendered - 1
}

/// Whether `after` is the detail pane that a switch of views makes of
/// `before`: the pane opens at the top where there was none, and closes where
/// there was one.
pub open spec fn toggled(before: Option<Scroll>, after: Option<Scroll>) -> bool {
    match before {
        None => after is Some && after->Some_0.position() == 0,
        Some(_) => after is None,
    }
}

/// A dataset with the row that is selected in it, the first row of the
/// viewport, and the detail pane while it is open.
#[derive(Debug)]
pub struct Table {
    pub data_frame: DataFrame,
    pub offset: usize,
    pub select: usize,
    pub rendered_rows: u16,
    pub widths: Vec<usize>,
    pub detailed_view: Option<Scroll>,
}

impl Table {
    /// Number of rows of the dataset.
    pub open spec fn rows(&self) -> nat {
        frame_height(self.data_frame) as nat
    }

    /// The selected row is a row of the dataset, or row 0 of an empty one.
    pub open spec fn select_in_range(&self) -> bool {
        0 <= self.select <= last_row(self.rows())
    }

    /// The selected row lies inside the viewport.
    pub open spec fn select_visible(&self) -> bool {
        shows(self.offset as int, self.select as int, self.rendered_rows as int)
    }

    /// Whether `self` is `before` with the row `row` selected and nothing else
    /// changed.
    pub open spec fn selects(&self, before: &Table, row: int) -> bool {
        &&& self.select == row
        &&& self.data_frame == before.data_frame
        &&& self.offset == before.offset
        &&& self.rendered_rows == before.rendered_rows
        &&& self.widths == before.widths
        &&& self.detailed_view == before.detailed_view
    }

    /// A table over `data_frame` whose columns are shown `widths` wide: the
    /// first row is selected and is the first of the viewport, nothing has
    /// been drawn yet, and the detail pane is closed.
    pub fn new(data_frame: DataFrame, widths: Vec<usize>) -> (table: Table)
        ensures
            table.data_frame == data_frame,
            table.widths == widths,
            table.offset == 0,
            table.select == 0,
            table.rendered_rows == 0,
            table.detailed_view is None,
            table.select_in_range(),
    {
        Table {
            offset: 0,
            select: 0,
            rendered_rows: 0,
            widths,
            data_frame,
            detailed_view: None,
        }
    }

    /// One unit of logical time passes; a table does not age.
    pub fn tick(&mut self)
        ensures
            *final(self) == *old(self),
    {
    }

    /// Moves the selection `len` rows up, stopping at the first row.
    pub fn select_up(&mut self, len: usize)
        ensures
            final(self).selects(
                old(self),
                stepped(old(self).select as int, old(self).rows(), Step::Up(len)),
            ),
            final(self).select_in_range(),
    {
        self.select(self.select.saturating_sub(len))
    }

    /// Moves the selection `len` rows down, stopping at the last row.
    pub fn select_down(&mut self, len: usize)
        ensures
            final(self).selects(
                old(self),
                stepped(old(self).select as int, old(self).rows(), Step::Down(len)),
            ),
            final(self).select_in_range(),
    {
        self.select(self.select.saturating_add(len));
    }

    /// Selects the first row.
    pub fn select_first(&mut self)
        ensures
            final(self).selects(
                old(self),
                stepped(old(self).select as int, old(self).rows(), Step::First),
            ),
            final(self).select == 0,
            final(self).select_in_range(),
    {
        self.select(usize::MIN)
    }

    /// Selects the last row, or row 0 of an empty dataset.
    pub fn select_last(&mut self)
        ensures
            final(self).selects(
                old(self),
                stepped(old(self).select as int, old(self).rows(), Step::Last),
            ),
            final(self).select == last_row(old(self).rows()),
            final(self).select_in_range(),
    {
        self.select(usize::MAX);
    }

    /// Selects the row nearest to `select` that the dataset has.
    pub fn select(&mut self, select: usize)
        ensures
            final(self).selects(old(self), clamped_row(select as int, old(self).rows())),
            final(self).select_in_range(),
    {
        let last: usize = self.data_frame.height().saturating_sub(1);
        self.select = if select <= last {
            select
        } else {
            last
        };
    }

    /// Moves the viewport as little as it takes to show the selected row: not
    /// at all where the row is already shown.
    pub fn adjust_offset(&mut self)
        ensures
            final(self).offset == adjusted_offset(
                old(self).offset as int,
                old(self).select as int,
                old(self).rendered_rows as int,
            ),
            old(self).select_visible() ==> final(self).offset == old(self).offset,
            old(self).rendered_rows >= 1 ==> final(self).select_visible(),
            final(self).select == old(self).select,
            final(self).data_frame == old(self).data_frame,
            final(self).rendered_rows == old(self).rendered_rows,
            final(self).widths == old(self).widths,
            final(self).detailed_view == old(self).detailed_view,
    {
        let span: usize = self.rendered_rows.saturating_sub(1).into();
        let low: usize = self.select.saturating_sub(span);
        if self.offset < low {
            self.offset = low;
        } else if self.offset > self.select {
            self.offset = self.select;
        }
    }

    /// Opens the detail pane at the top where it is closed, and closes it
    /// where it is open.
    pub fn switch_view(&mut self)
        ensures
            toggled(old(self).detailed_view, final(self).detailed_view),
            final(self).select == old(self).select,
            final(self).offset == old(self).offset,
            final(self).data_frame == old(self).data_frame,
            final(self).rendered_rows == old(self).rendered_rows,
            final(self).widths == old(self).widths,
    {
        if self.detailed_view.is_none() {
            self.detailed_view = Some(Scroll::default());
        } else {
            self.detailed_view = None;
        }
    }

    /// Replaces the dataset and the widths of its columns, and goes back to
    /// the first row. The detail pane and the size of the viewport stay.
    pub fn set_data_frame(&mut self, data_frame: DataFrame, widths: Vec<usize>)
        ensures
            final(self).data_frame == data_frame,
            final(self).widths == widths,
            final(self).offset == 0,
            final(self).select == 0,
            final(self).rendered_rows == old(self).rendered_rows,
            final(self).detailed_view == old(self).detailed_view,
            final(self).select_in_range(),
    {
        self.widths = widths;
        self.offset = 0;
        self.select = 0;
        self.data_frame = data_frame;
    }
}

/// However a row is chosen, the row that ends up selected is one of the
/// dataset's rows, or row 0 where it has none.
pub proof fn lemma_clamped_row_in_range(target: int, rows: nat)
    requires
        target >= 0,
    ensures
        0 <= clamped_row(target, rows) <= last_row(rows),
        rows > 0 ==> clamped_row(target, rows) < rows,
{
}

/// Whatever moves are taken, one after the other, from a row of the dataset,
/// the row that ends up selected is a row of the dataset, or row 0 where it
/// has none.
pub proof fn lemma_walk_stays_in_range(select: int, rows: nat, steps: Seq<Step>)
    requires
        0 <= select <= last_row(rows),
    ensures
        0 <= walked(select, rows, steps) <= last_row(rows),
    decreases steps.len(),
{
    if steps.len() > 0 {
        lemma_walk_stays_in_range(select, rows, steps.drop_last());
    }
}

/// A single move ends on a row of the dataset wherever it starts.
pub proof fn lemma_step_ends_in_range(select: int, rows: nat, step: Step)
    requires
        select >= 0,
    ensures
        0 <= stepped(select, rows, step) <= last_row(rows),
{
}

/// After the viewport has been adjusted, a viewport of at least one row shows
/// the selected row.
pub proof fn lemma_adjusted_offset_shows_selection(offset: int, select: int, rendered: int)
    requires
        offset >= 0,
        select >= 0,
        rendered >= 1,
    ensures
        shows(adjusted_offset(offset, select, rendered), select, rendered),
{
}

/// Adjusting the viewport a second time, with nothing changed in between,
/// leaves it where the first adjustment put it.
pub proof fn lemma_adjusted_offset_idempotent(offset: int, select: int, rendered: int)
    requires
        offset >= 0,
        select >= 0,
        rendered >= 0,
    ensures
        adjusted_offset(adjusted_offset(offset, select, rendered), select, rendered)
            == adjusted_offset(offset, select, rendered),
{
}

/// Adjusting a viewport that already shows the selected row does not move it.
pub proof fn lemma_adjusted_offset_keeps_visible(offset: int, select: int, rendered: int)
    requires
        offset >= 0,
        shows(offset, select, rendered),
    ensures
        adjusted_offset(offset, select, rendered) == offset,
{
}

/// Switching views twice leaves the detail pane open if it was open and
/// closed if it was closed; a pane that is open again stands at the top.
pub proof fn lemma_toggled_twice(before: Option<Scroll>, between: Option<Scroll>, after: Option<Scroll>)
    requires
        toggled(before, between),
        toggled(between, after),
    ensures
        after is Some <==> before is Some,
        after is Some ==> after->Some_0.position() == 0,
{
}

} // verus!
