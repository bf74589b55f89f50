//! A plain-data snapshot of the catalog relations the inspector queries:
//! the table listing, the column listing joined to the type catalog, the
//! foreign-key constraint metadata, the per-relation size statistics with
//! the server's block size, and the catalog's answers about serial columns.
//! The caller that owns the live connection fills one of these in; the
//! inspector's logic is verified against it.

use crate::model::{ColumnModel, ForeignKey, ForeignKeyModel};
use vstd::prelude::*;

verus! {

/// Mathematical view of a [`CatalogTableRow`].
pub ghost struct TableRowModel {
    pub tablename: Seq<char>,
    pub schemaname: Seq<char>,
}

/// One row of the catalog's table listing.
pub struct CatalogTableRow {
    pub tablename: String,
    pub schemaname: String,
}

impl View for CatalogTableRow {
    type V = TableRowModel;

    open spec fn view(&self) -> TableRowModel {
        TableRowModel { tablename: self.tablename@, schemaname: self.schemaname@ }
    }
}

/// Mathematical view of a [`CatalogColumnRow`].
pub ghost struct ColumnRowModel {
    pub table_schema: Seq<char>,
    pub table_name: Seq<char>,
    pub column_name: Seq<char>,
    pub ordinal_position: int,
    pub data_type: Seq<char>,
    pub type_oid: int,
}

impl ColumnRowModel {
    /// The column entity this row maps to.
    pub open spec fn column_model(&self) -> ColumnModel {
        ColumnModel {
            name: self.column_name,
            position: self.ordinal_position,
            data_type: self.data_type,
            type_oid: self.type_oid,
        }
    }
}

/// One row of the catalog's column listing, joined against the type catalog
/// to resolve the low-level type identifier.
pub struct CatalogColumnRow {
    pub table_schema: String,
    pub table_name: String,
    pub column_name: String,
    pub ordinal_position: i32,
    pub data_type: String,
    pub type_oid: u32,
}

impl View for CatalogColumnRow {
    type V = ColumnRowModel;

    open spec fn view(&self) -> ColumnRowModel {
        ColumnRowModel {
            table_schema: self.table_schema@,
            table_name: self.table_name@,
            column_name: self.column_name@,
            ordinal_position: self.ordinal_position as int,
            data_type: self.data_type@,
            type_oid: self.type_oid as int,
        }
    }
}

/// Mathematical view of a [`CatalogSizeRow`].
pub ghost struct SizeRowModel {
    pub relname: Seq<char>,
    pub nspname: Seq<char>,
    pub reltuples: int,
    pub relpages: int,
    pub relation_size: int,
}

/// Per-relation size statistics: the planner's live-tuple estimate, the
/// page count the statistics record, and the physical relation size in
/// bytes.
pub struct CatalogSizeRow {
    pub relname: String,
    pub nspname: String,
    pub reltuples: i64,
    pub relpages: i64,
    pub relation_size: i64,
}

impl View for CatalogSizeRow {
    type V = SizeRowModel;

    open spec fn view(&self) -> SizeRowModel {
        SizeRowModel {
            relname: self.relname@,
            nspname: self.nspname@,
            reltuples: self.reltuples as int,
            relpages: self.relpages as int,
            relation_size: self.relation_size as int,
        }
    }
}

/// Mathematical view of a [`CatalogSerialRow`].
pub ghost struct SerialRowModel {
    pub table: Seq<char>,
    pub column: Seq<char>,
    pub sequence_name: Option<Seq<char>>,
}

/// The catalog's recorded answer to one serial-sequence probe: for the
/// quoted, fully-qualified `table` and the `column` asked about, either the
/// fully-qualified name of the backing sequence or the answer that none
/// backs it.  A probe with no recorded answer fails, as the live query
/// would.
pub struct CatalogSerialRow {
    pub table: String,
    pub column: String,
    pub sequence_name: Option<String>,
}

impl View for CatalogSerialRow {
    type V = SerialRowModel;

    open spec fn view(&self) -> SerialRowModel {
        SerialRowModel {
            table: self.table@,
            column: self.column@,
            sequence_name: match self.sequence_name {
                Some(ref s) => Some(s@),
                None => None,
            },
        }
    }
}

/// Mathematical view of a [`CatalogSnapshot`].
pub ghost struct CatalogModel {
    pub tables: Seq<TableRowModel>,
    pub columns: Seq<ColumnRowModel>,
    pub foreign_keys: Seq<ForeignKeyModel>,
    pub size_stats: Seq<SizeRowModel>,
    pub serial_sequences: Seq<SerialRowModel>,
    pub block_size: int,
}

impl CatalogModel {
    /// What every snapshot read off a live server satisfies: the block size
    /// is a positive server setting, and the statistics columns are the
    /// nonnegative counts and byte sizes the catalog documents them to be.
    pub open spec fn wf(&self) -> bool {
        &&& self.block_size >= 1
        &&& forall|i: int|
            0 <= i < self.size_stats.len() ==> {
                &&& (#[trigger] self.size_stats[i]).reltuples >= 0
                &&& self.size_stats[i].relpages >= 0
                &&& self.size_stats[i].relation_size >= 0
            }
    }
}

/// Everything the inspector reads from the catalog, gathered as plain data.
pub struct CatalogSnapshot {
    pub tables: Vec<CatalogTableRow>,
    pub columns: Vec<CatalogColumnRow>,
    pub foreign_keys: Vec<ForeignKey>,
    pub size_stats: Vec<CatalogSizeRow>,
    pub serial_sequences: Vec<CatalogSerialRow>,
    pub block_size: i64,
}

/// The views of a sequence of table rows, element by element.
pub open spec fn table_row_views(s: Seq<CatalogTableRow>) -> Seq<TableRowModel> {
    Seq::new(s.len(), |i: int| s[i]@)
}

/// The views of a sequence of column rows, element by element.
pub open spec fn column_row_views(s: Seq<CatalogColumnRow>) -> Seq<ColumnRowModel> {
    Seq::new(s.len(), |i: int| s[i]@)
}

/// The views of a sequence of foreign keys, element by element.
pub open spec fn foreign_key_views(s: Seq<ForeignKey>) -> Seq<ForeignKeyModel> {
    Seq::new(s.len(), |i: int| s[i]@)
}

/// The views of a sequence of size rows, element by element.
pub open spec fn size_row_views(s: Seq<CatalogSizeRow>) -> Seq<SizeRowModel> {
    Seq::new(s.len(), |i: int| s[i]@)
}

/// The views of a sequence of serial-probe rows, element by element.
pub open spec fn serial_row_views(s: Seq<CatalogSerialRow>) -> Seq<SerialRowModel> {
    Seq::new(s.len(), |i: int| s[i]@)
}

impl View for CatalogSnapshot {
    type V = CatalogModel;

    open spec fn view(&self) -> CatalogModel {
        CatalogModel {
            tables: table_row_views(self.tables@),
            columns: column_row_views(self.columns@),
            foreign_keys: foreign_key_views(self.foreign_keys@),
            size_stats: size_row_views(self.size_stats@),
            serial_sequences: serial_row_views(self.serial_sequences@),
            block_size: self.block_size as int,
        }
    }
}

} // verus!
