//! A row as the database hands it over: one cell for each column.
//!
//! The columns come in the order of the table: identifier, title, media
//! type, readable kind, watch status, read status, current count, total,
//! score, global score, external identifier, poster, source, tags.

use vstd::prelude::*;
use crate::database::{MediaRow, MediaRowView};
use crate::storage::StorageError;
use crate::text::{opt_text, texts};

verus! {

/// What reading one column gave.
#[derive(Debug, Clone, PartialEq, Eq)]
pub enum Cell {
    /// The column could not be read. Holds the database's message.
    Failed(String),
    Null,
    Integer(i64),
    /// A floating-point number; the library reads none.
    Real,
    Text(String),
    /// Raw bytes; the library reads none.
    Blob,
}

/// A cell as plain values.
pub enum CellView {
    Failed(Seq<char>),
    Null,
    Integer(i64),
    Real,
    Text(Seq<char>),
    Blob,
}

impl View for Cell {
    type V = CellView;

    open spec fn view(&self) -> CellView {
        match *self {
            Cell::Failed(m) => CellView::Failed(m@),
            Cell::Null => CellView::Null,
            Cell::Integer(i) => CellView::Integer(i),
            Cell::Real => CellView::Real,
            Cell::Text(t) => CellView::Text(t@),
            Cell::Blob => CellView::Blob,
        }
    }
}

/// How many columns a row has.
pub const COLUMN_COUNT: usize = 14;

/// The cells of a list of cells, as plain values.
pub open spec fn cell_views(cells: Seq<Cell>) -> Seq<CellView> {
    Seq::new(cells.len(), |i: int| cells[i]@)
}

/// The cell of a column.
pub open spec fn cell_at(cells: Seq<CellView>, column: int) -> CellView
    recommends
        0 <= column < cells.len(),
{
    cells[column]
}

/// Whether a cell can stand in a column that is read as text.
pub open spec fn text_or_absent(c: CellView) -> bool {
    c is Text || c is Null || c is Failed
}

/// Whether a cell can stand in a column that is read as a whole number.
pub open spec fn integer_or_absent(c: CellView) -> bool {
    c is Integer || c is Null || c is Failed
}

/// Whether the cells are those of one row of the table: one for each of
/// the fourteen columns; text, where anything, in the identifier, title,
/// media type and tags columns; and a whole number, where anything, in the
/// current count column. The other columns may hold anything.
pub open spec fn cells_typed(cells: Seq<CellView>) -> bool {
    &&& cells.len() == COLUMN_COUNT
    &&& text_or_absent(cell_at(cells, 0))
    &&& text_or_absent(cell_at(cells, 1))
    &&& text_or_absent(cell_at(cells, 2))
    &&& integer_or_absent(cell_at(cells, 6))
    &&& text_or_absent(cell_at(cells, 13))
}

/// A column that must hold text: its text, or the message under which the
/// row is refused. For a cell that could not be read that is the message it
/// holds, and for a null the message that the database has for a null where
/// a value is asked for.
pub open spec fn required_text(c: CellView, null_message: Seq<char>) -> Result<
    Seq<char>,
    Seq<char>,
> {
    match c {
        CellView::Text(t) => Ok(t),
        CellView::Failed(m) => Err(m),
        _ => Err(null_message),
    }
}

/// A column that may hold text: its text, and nothing for any other cell.
pub open spec fn optional_text(c: CellView) -> Option<Seq<char>> {
    match c {
        CellView::Text(t) => Some(t),
        _ => None,
    }
}

/// A column that may hold a whole number: the number, and nothing for any
/// other cell.
pub open spec fn optional_integer(c: CellView) -> Option<i64> {
    match c {
        CellView::Integer(i) => Some(i),
        _ => None,
    }
}

/// The row that fourteen cells make up, or the message under which they are
/// refused. The identifier, the title and the media type must be there, and
/// the first of them that is not decides the message. A current count that
/// is not there is zero; tags that are not there are the empty list `[]`.
pub open spec fn row_of_cells(cells: Seq<CellView>, null_message: Seq<char>) -> Result<
    MediaRowView,
    Seq<char>,
> {
    match required_text(cell_at(cells, 0), null_message) {
        Err(m) => Err(m),
        Ok(id) => match required_text(cell_at(cells, 1), null_message) {
            Err(m) => Err(m),
            Ok(title) => match required_text(cell_at(cells, 2), null_message) {
                Err(m) => Err(m),
                Ok(media_type) => Ok(
                    MediaRowView {
                        id,
                        title,
                        media_type,
                        readable_kind: optional_text(cell_at(cells, 3)),
                        watch_status: optional_text(cell_at(cells, 4)),
                        read_status: optional_text(cell_at(cells, 5)),
                        progress_cur: match optional_integer(cell_at(cells, 6)) {
                            Some(i) => i,
                            None => 0,
                        },
                        progress_tot: optional_integer(cell_at(cells, 7)),
                        score: optional_integer(cell_at(cells, 8)),
                        global_score: optional_integer(cell_at(cells, 9)),
                        external_id: optional_integer(cell_at(cells, 10)),
                        poster_url: optional_text(cell_at(cells, 11)),
                        source: optional_text(cell_at(cells, 12)),
                        tags: match optional_text(cell_at(cells, 13)) {
                            Some(t) => t,
                            None => "[]"@,
                        },
                    },
                ),
            },
        },
    }
}

/// The cell of optional text: null where there is none.
pub open spec fn text_cell(t: Option<Seq<char>>) -> CellView {
    match t {
        Some(s) => CellView::Text(s),
        None => CellView::Null,
    }
}

/// The cell of an optional whole number: null where there is none.
pub open spec fn integer_cell(i: Option<i64>) -> CellView {
    match i {
        Some(v) => CellView::Integer(v),
        None => CellView::Null,
    }
}

/// The fourteen cells of a row, in the order of the columns.
pub open spec fn cells_of(row: MediaRowView) -> Seq<CellView> {
    seq![
        CellView::Text(row.id),
        CellView::Text(row.title),
        CellView::Text(row.media_type),
        text_cell(row.readable_kind),
        text_cell(row.watch_status),
        text_cell(row.read_status),
        CellView::Integer(row.progress_cur),
        integer_cell(row.progress_tot),
        integer_cell(row.score),
        integer_cell(row.global_score),
        integer_cell(row.external_id),
        text_cell(row.poster_url),
        text_cell(row.source),
        CellView::Text(row.tags),
    ]
}

/// The cells of a row are fourteen, have the types of the table, and make
/// up the row again, whatever the database's message for a null is.
pub proof fn law_cells_round_trip(row: MediaRowView, null_message: Seq<char>)
    ensures
        cells_of(row).len() == COLUMN_COUNT,
        cells_typed(cells_of(row)),
        row_of_cells(cells_of(row), null_message) == Ok::<MediaRowView, Seq<char>>(row),
{
}

/// The cell of a column, copied.
fn cell(cells: &Vec<Cell>, column: usize) -> (r: Cell)
    requires
        column < cells@.len(),
    ensures
        r@ == cell_at(cell_views(cells@), column as int),
{
    match &cells[column] {
        Cell::Failed(m) => Cell::Failed(m.clone()),
        Cell::Null => Cell::Null,
        Cell::Integer(i) => Cell::Integer(*i),
        Cell::Real => Cell::Real,
        Cell::Text(t) => Cell::Text(t.clone()),
        Cell::Blob => Cell::Blob,
    }
}

/// Reads a column that must hold text.
fn read_required_text(c: Cell, null_message: &str) -> (r: Result<String, StorageError>)
    requires
        text_or_absent(c@),
    ensures
        match r {
            Ok(t) => required_text(c@, null_message@) == Ok::<Seq<char>, Seq<char>>(t@),
            Err(StorageError::Database(m)) => required_text(c@, null_message@) == Err::<
                Seq<char>,
                Seq<char>,
            >(m@),
            Err(_) => false,
        },
{
    match c {
        Cell::Text(t) => Ok(t),
        Cell::Failed(m) => Err(StorageError::Database(m)),
        _ => Err(StorageError::Database(null_message.to_owned())),
    }
}

/// Reads a column that may hold text.
fn read_optional_text(c: Cell) -> (r: Option<String>)
    ensures
        opt_text(r) == optional_text(c@),
{
    match c {
        Cell::Text(t) => Some(t),
        _ => None,
    }
}

/// Reads a column that may hold a whole number.
fn read_optional_integer(c: Cell) -> (r: Option<i64>)
    ensures
        r == optional_integer(c@),
{
    match c {
        Cell::Integer(i) => Some(i),
        _ => None,
    }
}

/// The cell of an optional string.
fn to_text_cell(t: &Option<String>) -> (r: Cell)
    ensures
        r@ == text_cell(opt_text(*t)),
{
    match t {
        Some(s) => Cell::Text(s.clone()),
        None => Cell::Null,
    }
}

/// The cell of an optional whole number.
fn to_integer_cell(i: Option<i64>) -> (r: Cell)
    ensures
        r@ == integer_cell(i),
{
    match i {
        Some(v) => Cell::Integer(v),
        None => Cell::Null,
    }
}

impl MediaRow {
    /// The row that the cells of one database row make up.
    ///
    /// The cells must be fourteen and have the types of the table. The row
    /// is refused, with the database's message, exactly where the
    /// identifier, the title or the media type could not be read or is null;
    /// `null_message` is the message that the database has for a null.
    /// Anything amiss in another column is made good: a nullable column
    /// reads as absent, the current count as zero, the tags as the empty
    /// list.
    pub fn from_cells(cells: &Vec<Cell>, null_message: &str) -> (r: Result<MediaRow, StorageError>)
        requires
            cells_typed(cell_views(cells@)),
        ensures
            match r {
                Ok(row) => row_of_cells(cell_views(cells@), null_message@) == Ok::<
                    MediaRowView,
                    Seq<char>,
                >(row@),
                Err(StorageError::Database(m)) => row_of_cells(
                    cell_views(cells@),
                    null_message@,
                ) == Err::<MediaRowView, Seq<char>>(m@),
                Err(_) => false,
            },
    {
        let id = read_required_text(cell(cells, 0), null_message)?;
        let title = read_required_text(cell(cells, 1), null_message)?;
        let media_type = read_required_text(cell(cells, 2), null_message)?;
        let progress_cur = match read_optional_integer(cell(cells, 6)) {
            Some(i) => i,
            None => 0,
        };
        let tags = match read_optional_text(cell(cells, 13)) {
            Some(t) => t,
            None => "[]".to_owned(),
        };
        Ok(
            MediaRow {
                id,
                title,
                media_type,
                readable_kind: read_optional_text(cell(cells, 3)),
                watch_status: read_optional_text(cell(cells, 4)),
                read_status: read_optional_text(cell(cells, 5)),
                progress_cur,
                progress_tot: read_optional_integer(cell(cells, 7)),
                score: read_optional_integer(cell(cells, 8)),
                global_score: read_optional_integer(cell(cells, 9)),
                external_id: read_optional_integer(cell(cells, 10)),
                poster_url: read_optional_text(cell(cells, 11)),
                source: read_optional_text(cell(cells, 12)),
                tags,
            },
        )
    }

    /// The cells under which the row is written, in the order of the
    /// columns: text and numbers as they are, null for what is absent.
    pub fn to_cells(&self) -> (r: Vec<Cell>)
        ensures
            cell_views(r@) == cells_of(self@),
            r@.len() == COLUMN_COUNT,
            cells_typed(cell_views(r@)),
            forall|null_message: Seq<char>|
                #[trigger] row_of_cells(cell_views(r@), null_message) == Ok::<
                    MediaRowView,
                    Seq<char>,
                >(self@),
    {
        let mut r: Vec<Cell> = Vec::new();
        r.push(Cell::Text(self.id.clone()));
        r.push(Cell::Text(self.title.clone()));
        r.push(Cell::Text(self.media_type.clone()));
        r.push(to_text_cell(&self.readable_kind));
        r.push(to_text_cell(&self.watch_status));
        r.push(to_text_cell(&self.read_status));
        r.push(Cell::Integer(self.progress_cur));
        r.push(to_integer_cell(self.progress_tot));
        r.push(to_integer_cell(self.score));
        r.push(to_integer_cell(self.global_score));
        r.push(to_integer_cell(self.external_id));
        r.push(to_text_cell(&self.poster_url));
        r.push(to_text_cell(&self.source));
        r.push(Cell::Text(self.tags.clone()));
        assert(cell_views(r@) =~= cells_of(self@));
        assert forall|null_message: Seq<char>|
            #[trigger] row_of_cells(cell_views(r@), null_message) == Ok::<
                MediaRowView,
                Seq<char>,
            >(self@) by {
            law_cells_round_trip(self@, null_message);
        }
        r
    }
}

} // verus!
