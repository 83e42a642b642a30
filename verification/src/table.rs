//! Tables as the tools return them: a title, typed columns with headers,
//! display hints, and the rows themselves, which the caller serialises.

use vstd::prelude::*;

use crate::fmt::{owned, views};

verus! {

/// How a column's cells are rendered.
#[derive(Clone, Copy, PartialEq, Eq, Structural)]
pub enum ColumnType {
    Integer,
    String,
    Date,
    Currency,
    Boolean,
}

/// The default direction a table is sorted in.
#[derive(Clone, Copy, PartialEq, Eq, Structural)]
pub enum SortOrder {
    Asc,
    Desc,
}

/// One column: the row field it shows, its type, and its header when it
/// has one.
pub struct Column {
    pub name: String,
    pub kind: ColumnType,
    pub header: Option<String>,
}

pub struct ColumnV {
    pub name: Seq<char>,
    pub kind: ColumnType,
    pub header: Option<Seq<char>>,
}

impl View for Column {
    type V = ColumnV;

    open spec fn view(&self) -> ColumnV {
        ColumnV { name: self.name@, kind: self.kind, header: crate::strings::opt_view(self.header) }
    }
}

/// Display hints: page size, whether the reader can filter, the columns
/// they can sort by, and the sort a table opens with.
pub struct TableHints {
    pub page_size: u32,
    pub filterable: bool,
    pub sortable: Vec<String>,
    pub default_sort: Option<(String, SortOrder)>,
}

pub struct TableHintsV {
    pub page_size: u32,
    pub filterable: bool,
    pub sortable: Seq<Seq<char>>,
    pub default_sort: Option<(Seq<char>, SortOrder)>,
}

impl View for TableHints {
    type V = TableHintsV;

    open spec fn view(&self) -> TableHintsV {
        TableHintsV {
            page_size: self.page_size,
            filterable: self.filterable,
            sortable: views(self.sortable@),
            default_sort: match self.default_sort {
                Some((c, o)) => Some((c@, o)),
                None => None,
            },
        }
    }
}

/// A table's layout: everything but its rows.
pub struct TableSpec {
    pub title: String,
    pub columns: Vec<Column>,
    pub hints: Option<TableHints>,
}

pub struct TableSpecV {
    pub title: Seq<char>,
    pub columns: Seq<ColumnV>,
    pub hints: Option<TableHintsV>,
}

impl View for TableSpec {
    type V = TableSpecV;

    open spec fn view(&self) -> TableSpecV {
        TableSpecV {
            title: self.title@,
            columns: Seq::new(self.columns@.len(), |i: int| self.columns@[i]@),
            hints: match self.hints {
                Some(h) => Some(h@),
                None => None,
            },
        }
    }
}

/// A table: its layout and its rows, in order.
pub struct Table<R> {
    pub spec: TableSpec,
    pub rows: Vec<R>,
}

/// A column without a header.
pub open spec fn col(name: Seq<char>, kind: ColumnType) -> ColumnV {
    ColumnV { name, kind, header: None }
}

/// A column with a header.
pub open spec fn col_h(name: Seq<char>, kind: ColumnType, header: Seq<char>) -> ColumnV {
    ColumnV { name, kind, header: Some(header) }
}

pub fn column(name: &str, kind: ColumnType) -> (c: Column)
    ensures
        c@ == col(name@, kind),
{
    Column { name: owned(name), kind, header: None }
}

pub fn column_h(name: &str, kind: ColumnType, header: &str) -> (c: Column)
    ensures
        c@ == col_h(name@, kind, header@),
{
    Column { name: owned(name), kind, header: Some(owned(header)) }
}

} // verus!
