//! The relational model the inspector reconstructs from catalog metadata:
//! tables, columns, sequences and foreign-key edges.  Each entity carries a
//! mathematical view (`@`) over sequences of characters and integers, and
//! every contract in the crate is stated over those views.

use vstd::prelude::*;

verus! {

/// Mathematical view of a [`PgColumn`].
pub ghost struct ColumnModel {
    pub name: Seq<char>,
    pub position: int,
    pub data_type: Seq<char>,
    pub type_oid: int,
}

/// A column of a table: its name, its 1-based ordinal position in the table,
/// the declared data-type name, and the catalog's low-level type identifier
/// used downstream to pick a value-formatting strategy.
pub struct PgColumn {
    pub name: String,
    pub position: i32,
    pub data_type: String,
    pub type_oid: u32,
}

impl View for PgColumn {
    type V = ColumnModel;

    open spec fn view(&self) -> ColumnModel {
        ColumnModel {
            name: self.name@,
            position: self.position as int,
            data_type: self.data_type@,
            type_oid: self.type_oid as int,
        }
    }
}

/// The views of a sequence of columns, element by element.
pub open spec fn column_views(s: Seq<PgColumn>) -> Seq<ColumnModel> {
    Seq::new(s.len(), |i: int| s[i]@)
}

/// A sequence generator backing a serial column, by fully-qualified name.
pub struct PgSequence {
    pub full_name: String,
}

impl View for PgSequence {
    type V = Seq<char>;

    open spec fn view(&self) -> Seq<char> {
        self.full_name@
    }
}

/// The views of a sequence of sequence generators, element by element.
pub open spec fn sequence_views(s: Seq<PgSequence>) -> Seq<Seq<char>> {
    Seq::new(s.len(), |i: int| s[i]@)
}

/// Mathematical view of a [`ForeignKey`].
pub ghost struct ForeignKeyModel {
    pub table_schema: Seq<char>,
    pub constraint_name: Seq<char>,
    pub table_name: Seq<char>,
    pub column_name: Seq<char>,
    pub foreign_table_schema: Seq<char>,
    pub foreign_table_name: Seq<char>,
    pub foreign_column_name: Seq<char>,
}

/// A foreign-key constraint as the catalog reports it: a directed edge from
/// an owning (schema, table, column) to a referenced (schema, table, column).
/// It is used transiently, to materialize the referenced table as a fresh
/// dependency value.
pub struct ForeignKey {
    pub table_schema: String,
    pub constraint_name: String,
    pub table_name: String,
    pub column_name: String,
    pub foreign_table_schema: String,
    pub foreign_table_name: String,
    pub foreign_column_name: String,
}

impl View for ForeignKey {
    type V = ForeignKeyModel;

    open spec fn view(&self) -> ForeignKeyModel {
        ForeignKeyModel {
            table_schema: self.table_schema@,
            constraint_name: self.constraint_name@,
            table_name: self.table_name@,
            column_name: self.column_name@,
            foreign_table_schema: self.foreign_table_schema@,
            foreign_table_name: self.foreign_table_name@,
            foreign_column_name: self.foreign_column_name@,
        }
    }
}

/// Mathematical view of a [`PgTable`].
pub ghost struct TableModel {
    pub tablename: Seq<char>,
    pub schemaname: Seq<char>,
    pub columns: Seq<ColumnModel>,
    pub sequences: Seq<Seq<char>>,
    pub size: int,
}

/// A table, identified by (schema name, table name), owning an ordered
/// sequence of columns, the sequence generators behind its serial columns,
/// and an approximate byte size used for progress weighting.  A freshly
/// mapped table has no columns or sequences attached and its size sits at
/// the neutral default of zero.
pub struct PgTable {
    pub tablename: String,
    pub schemaname: String,
    pub columns: Vec<PgColumn>,
    pub sequences: Vec<PgSequence>,
    pub size: i64,
}

impl View for PgTable {
    type V = TableModel;

    open spec fn view(&self) -> TableModel {
        TableModel {
            tablename: self.tablename@,
            schemaname: self.schemaname@,
            columns: column_views(self.columns@),
            sequences: sequence_views(self.sequences@),
            size: self.size as int,
        }
    }
}

/// The quoted, fully-qualified form `"schema"."table"` under which the
/// catalog is asked about a table's serial columns.
pub open spec fn quoted_full_name_model(schema: Seq<char>, name: Seq<char>) -> Seq<char> {
    "\""@ + schema + "\".\""@ + name + "\""@
}

impl PgTable {
    /// Map one catalog table row to a table entity, with nothing attached
    /// yet: no columns, no sequences, size at the neutral default.
    pub fn new(tablename: String, schemaname: String) -> (t: PgTable)
        ensures
            t@.tablename == tablename@,
            t@.schemaname == schemaname@,
            t@.columns == Seq::<ColumnModel>::empty(),
            t@.sequences == Seq::<Seq<char>>::empty(),
            t@.size == 0,
    {
        let t = PgTable {
            tablename,
            schemaname,
            columns: Vec::new(),
            sequences: Vec::new(),
            size: 0,
        };
        proof {
            assert(column_views(t.columns@) =~= Seq::<ColumnModel>::empty());
            assert(sequence_views(t.sequences@) =~= Seq::<Seq<char>>::empty());
        }
        t
    }

    /// Attach a column sequence, replacing whatever was attached before.
    pub fn set_columns(&mut self, columns: Vec<PgColumn>)
        ensures
            final(self)@.columns == column_views(columns@),
            final(self)@.tablename == old(self)@.tablename,
            final(self)@.schemaname == old(self)@.schemaname,
            final(self)@.sequences == old(self)@.sequences,
            final(self)@.size == old(self)@.size,
    {
        self.columns = columns;
    }

    /// Attach the sequence generators, replacing whatever was attached
    /// before.
    pub fn set_sequences(&mut self, sequences: Vec<PgSequence>)
        ensures
            final(self)@.sequences == sequence_views(sequences@),
            final(self)@.tablename == old(self)@.tablename,
            final(self)@.schemaname == old(self)@.schemaname,
            final(self)@.columns == old(self)@.columns,
            final(self)@.size == old(self)@.size,
    {
        self.sequences = sequences;
    }

    /// The bare table name, as the catalog's constraint metadata is keyed.
    pub fn get_name(&self) -> (r: String)
        ensures
            r@ == self@.tablename,
    {
        self.tablename.clone()
    }

    /// The quoted, fully-qualified name `"schema"."table"`.
    pub fn quoted_full_name(&self) -> (r: String)
        ensures
            r@ == quoted_full_name_model(self@.schemaname, self@.tablename),
    {
        let mut s = "\"".to_owned();
        s.append(self.schemaname.as_str());
        s.append("\".\"");
        s.append(self.tablename.as_str());
        s.append("\"");
        s
    }
}

} // verus!
