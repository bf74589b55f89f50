//! The schema inspector: answers, over a catalog snapshot, which tables
//! exist, what a table's columns, sequences and approximate size are, and
//! which tables a table depends on through its foreign keys.
//!
//! The listing queries (tables, columns, foreign keys) read the snapshot
//! totally and cannot fail; the two point lookups (size statistics, serial
//! probes) can, and the attachment sites treat those failures exactly as
//! the orchestration policy demands: fatal in the top-level listing,
//! degrade-to-default during dependency resolution.

use crate::catalog::{
    CatalogColumnRow, CatalogModel, CatalogSnapshot, CatalogTableRow, ColumnRowModel,
    SerialRowModel, SizeRowModel, TableRowModel,
};
use crate::model::{
    column_views, quoted_full_name_model, sequence_views, ColumnModel, ForeignKeyModel, PgColumn,
    PgSequence, PgTable, TableModel,
};
use vstd::prelude::*;

verus! {

/// Why a catalog point lookup failed.
#[derive(Clone, Copy, Debug, PartialEq, Eq, Structural)]
pub enum CatalogError {
    /// The size-statistics query matched no relation.
    RelationStatsNotFound,
    /// The size-statistics query matched more than one relation.
    RelationStatsAmbiguous,
    /// The size estimate does not fit the catalog's signed 64-bit size type.
    SizeOutOfRange,
    /// A serial-sequence probe has no recorded answer.
    SerialLookupFailed,
}

/// The two schemas the catalog reserves for itself; their tables are never
/// listed.
pub open spec fn is_system_schema(schema: Seq<char>) -> bool {
    schema == "pg_catalog"@ || schema == "information_schema"@
}

/// Whether a catalog column row belongs to the table identified by
/// (`schema`, `name`).
pub open spec fn column_row_matches(row: ColumnRowModel, schema: Seq<char>, name: Seq<char>) -> bool {
    row.table_schema == schema && row.table_name == name
}

/// The column entities mapped, in row order, from the catalog column rows
/// that belong to the table identified by (`schema`, `name`).
pub open spec fn column_models_for(
    rows: Seq<ColumnRowModel>,
    schema: Seq<char>,
    name: Seq<char>,
) -> Seq<ColumnModel>
    decreases rows.len(),
{
    if rows.len() == 0 {
        Seq::empty()
    } else {
        let rest = column_models_for(rows.drop_last(), schema, name);
        if column_row_matches(rows.last(), schema, name) {
            rest.push(rows.last().column_model())
        } else {
            rest
        }
    }
}

/// Columns stand in ascending ordinal-position order.
pub open spec fn sorted_by_position(cols: Seq<ColumnModel>) -> bool {
    forall|i: int, j: int| 0 <= i < j < cols.len() ==> cols[i].position <= cols[j].position
}

/// Columns stand in strictly ascending ordinal-position order.
pub open spec fn strictly_sorted_by_position(cols: Seq<ColumnModel>) -> bool {
    forall|i: int, j: int| 0 <= i < j < cols.len() ==> cols[i].position < cols[j].position
}

/// No two columns share an ordinal position.
pub open spec fn distinct_positions(cols: Seq<ColumnModel>) -> bool {
    forall|i: int, j: int|
        0 <= i < cols.len() && 0 <= j < cols.len() && i != j ==> cols[i].position != cols[j].position
}

/// What `get_columns` attaches to the table identified by (`schema`,
/// `name`): exactly the matching catalog rows, mapped to column entities
/// and rearranged into ascending ordinal-position order.
pub open spec fn column_attachment_ok(
    cat: CatalogModel,
    schema: Seq<char>,
    name: Seq<char>,
    cols: Seq<ColumnModel>,
) -> bool {
    &&& sorted_by_position(cols)
    &&& cols.to_multiset() == column_models_for(cat.columns, schema, name).to_multiset()
}

/// Whether a size-statistics row describes the relation `name` in schema
/// `schema`.
pub open spec fn size_row_matches(row: SizeRowModel, schema: Seq<char>, name: Seq<char>) -> bool {
    row.relname == name && row.nspname == schema
}

/// The size-statistics rows describing the relation `name` in schema
/// `schema`, in row order.
pub open spec fn size_rows_for(
    rows: Seq<SizeRowModel>,
    schema: Seq<char>,
    name: Seq<char>,
) -> Seq<SizeRowModel>
    decreases rows.len(),
{
    if rows.len() == 0 {
        Seq::empty()
    } else {
        let rest = size_rows_for(rows.drop_last(), schema, name);
        if size_row_matches(rows.last(), schema, name) {
            rest.push(rows.last())
        } else {
            rest
        }
    }
}

/// The statistical size estimate for one relation: average row bytes (the
/// live-tuple estimate divided by the recorded page count, with a floor of
/// one page so the division is never by zero) times the on-disk page count
/// (physical size divided by the server's block size).
pub open spec fn estimated_size(row: SizeRowModel, block_size: int) -> int {
    let pages = if row.relpages == 0 {
        1
    } else {
        row.relpages
    };
    (row.reltuples / pages) * (row.relation_size / block_size)
}

/// What the size query answers for the relation `name` in schema `schema`:
/// an error when no statistics row, or more than one, describes the
/// relation, or when the estimate overflows the catalog's signed 64-bit
/// size type; otherwise the estimate itself.
pub open spec fn spec_table_size(cat: CatalogModel, schema: Seq<char>, name: Seq<char>) -> Result<
    i64,
    CatalogError,
> {
    let rows = size_rows_for(cat.size_stats, schema, name);
    if rows.len() == 0 {
        Err(CatalogError::RelationStatsNotFound)
    } else if rows.len() > 1 {
        Err(CatalogError::RelationStatsAmbiguous)
    } else if estimated_size(rows[0], cat.block_size) > i64::MAX as int {
        Err(CatalogError::SizeOutOfRange)
    } else {
        Ok(estimated_size(rows[0], cat.block_size) as i64)
    }
}

/// The catalog's table listing with the catalog's own reserved schemas
/// left out, in row order.
pub open spec fn listed_table_rows(rows: Seq<TableRowModel>) -> Seq<TableRowModel>
    decreases rows.len(),
{
    if rows.len() == 0 {
        Seq::empty()
    } else {
        let rest = listed_table_rows(rows.drop_last());
        if !is_system_schema(rows.last().schemaname) {
            rest.push(rows.last())
        } else {
            rest
        }
    }
}

/// The earliest size-lookup failure over a run of listed table rows, in
/// listing order, if any.
pub open spec fn first_size_error(cat: CatalogModel, rows: Seq<TableRowModel>) -> Option<
    CatalogError,
>
    decreases rows.len(),
{
    if rows.len() == 0 {
        None
    } else {
        match first_size_error(cat, rows.drop_last()) {
            Some(e) => Some(e),
            None => match spec_table_size(cat, rows.last().schemaname, rows.last().tablename) {
                Err(e) => Some(e),
                Ok(_) => None,
            },
        }
    }
}

/// Once a size lookup has failed among the tables listed from a prefix of
/// the catalog rows, listing the rest changes nothing about that earliest
/// failure.
proof fn lemma_first_size_error_extends(cat: CatalogModel, rows: Seq<TableRowModel>, k: int)
    requires
        0 <= k <= rows.len(),
        first_size_error(cat, listed_table_rows(rows.subrange(0, k))) is Some,
    ensures
        first_size_error(cat, listed_table_rows(rows)) == first_size_error(
            cat,
            listed_table_rows(rows.subrange(0, k)),
        ),
    decreases rows.len() - k,
{
    if k < rows.len() {
        let pre = listed_table_rows(rows.subrange(0, k));
        let post = listed_table_rows(rows.subrange(0, k + 1));
        assert(rows.subrange(0, k + 1).drop_last() =~= rows.subrange(0, k));
        if !is_system_schema(rows.subrange(0, k + 1).last().schemaname) {
            assert(post == pre.push(rows.subrange(0, k + 1).last()));
            assert(pre.push(rows.subrange(0, k + 1).last()).drop_last() =~= pre);
        }
        lemma_first_size_error_extends(cat, rows, k + 1);
    } else {
        assert(rows.subrange(0, k) =~= rows);
    }
}

/// The foreign-key rows whose owning table is called `name`, in row order.
/// The catalog's constraint metadata is keyed by bare table name.
pub open spec fn fk_rows_for(rows: Seq<ForeignKeyModel>, name: Seq<char>) -> Seq<ForeignKeyModel>
    decreases rows.len(),
{
    if rows.len() == 0 {
        Seq::empty()
    } else {
        let rest = fk_rows_for(rows.drop_last(), name);
        if rows.last().table_name == name {
            rest.push(rows.last())
        } else {
            rest
        }
    }
}

/// What best-effort attachment leaves on a table entity mapped from
/// (`schema`, `name`): the identifying names themselves, the sorted column
/// attachment, the collected sequences — or none at all when the probing
/// failed — and the byte size `size` the caller's error policy settled on.
pub open spec fn attached_table_ok(
    cat: CatalogModel,
    schema: Seq<char>,
    name: Seq<char>,
    size: int,
    t: TableModel,
) -> bool {
    &&& t.schemaname == schema
    &&& t.tablename == name
    &&& column_attachment_ok(cat, schema, name, t.columns)
    &&& (match sequences_for(
        cat.serial_sequences,
        quoted_full_name_model(schema, name),
        t.columns,
    ) {
        Some(names) => t.sequences == names,
        None => t.sequences == Seq::<Seq<char>>::empty(),
    })
    &&& t.size == size
}

/// The size a table resolved during dependency resolution carries: the
/// estimate when the size lookup answers, the neutral default of zero when
/// it fails.
pub open spec fn defaulted_size(cat: CatalogModel, schema: Seq<char>, name: Seq<char>) -> int {
    match spec_table_size(cat, schema, name) {
        Ok(s) => s as int,
        Err(_) => 0,
    }
}

/// Whether a recorded serial probe answers for the quoted table `key` and
/// the column `column`.
pub open spec fn serial_row_matches(row: SerialRowModel, key: Seq<char>, column: Seq<char>) -> bool {
    row.table == key && row.column == column
}

/// The view of an optional sequence name.
pub open spec fn option_name_view(o: Option<String>) -> Option<Seq<char>> {
    match o {
        Some(s) => Some(s@),
        None => None,
    }
}

/// The catalog's answer to one serial probe: the first recorded row for the
/// quoted table `key` and the column `column`, if any.  `None` means the
/// probe has no recorded answer and fails; `Some(None)` means the catalog
/// answered that no sequence backs the column.
pub open spec fn serial_answer(
    rows: Seq<SerialRowModel>,
    key: Seq<char>,
    column: Seq<char>,
) -> Option<Option<Seq<char>>>
    decreases rows.len(),
{
    if rows.len() == 0 {
        None
    } else if serial_row_matches(rows.first(), key, column) {
        Some(rows.first().sequence_name)
    } else {
        serial_answer(rows.drop_first(), key, column)
    }
}

/// The sequence names collected by probing each column of `cols` in order
/// under the quoted table `key`: `None` as soon as any probe fails,
/// otherwise the non-empty answers in column order.
pub open spec fn sequences_for(
    rows: Seq<SerialRowModel>,
    key: Seq<char>,
    cols: Seq<ColumnModel>,
) -> Option<Seq<Seq<char>>>
    decreases cols.len(),
{
    if cols.len() == 0 {
        Some(Seq::empty())
    } else {
        match sequences_for(rows, key, cols.drop_last()) {
            None => None,
            Some(rest) => match serial_answer(rows, key, cols.last().name) {
                None => None,
                Some(Some(n)) => Some(rest.push(n)),
                Some(None) => Some(rest),
            },
        }
    }
}

/// Once probing a prefix of the columns has failed, probing all of them
/// fails too.
proof fn lemma_sequences_for_none_extends(
    rows: Seq<SerialRowModel>,
    key: Seq<char>,
    cols: Seq<ColumnModel>,
    k: int,
)
    requires
        0 <= k <= cols.len(),
        sequences_for(rows, key, cols.subrange(0, k)) is None,
    ensures
        sequences_for(rows, key, cols) is None,
    decreases cols.len() - k,
{
    if k < cols.len() {
        assert(cols.subrange(0, k + 1).drop_last() =~= cols.subrange(0, k));
        lemma_sequences_for_none_extends(rows, key, cols, k + 1);
    } else {
        assert(cols.subrange(0, k) =~= cols);
    }
}

/// Look up the catalog's recorded answer for one serial probe.
#[verifier::loop_isolation(false)]
fn lookup_serial(catalog: &CatalogSnapshot, key: &String, column: &String) -> (r: Result<
    Option<String>,
    CatalogError,
>)
    ensures
        (match r {
            Ok(o) => serial_answer(catalog@.serial_sequences, key@, column@) == Some(
                option_name_view(o),
            ),
            Err(e) => serial_answer(catalog@.serial_sequences, key@, column@) is None && e
                == CatalogError::SerialLookupFailed,
        }),
{
    let ghost rows = catalog@.serial_sequences;
    let mut i: usize = 0;
    proof {
        assert(rows.skip(0) =~= rows);
    }
    while i < catalog.serial_sequences.len()
        invariant
            i <= catalog.serial_sequences.len(),
            serial_answer(rows, key@, column@) == serial_answer(
                rows.skip(i as int),
                key@,
                column@,
            ),
        decreases catalog.serial_sequences.len() - i,
    {
        let ghost rest = rows.skip(i as int);
        proof {
            assert(rest.first() == rows[i as int]);
            assert(rest.drop_first() =~= rows.skip(i as int + 1));
        }
        let row = &catalog.serial_sequences[i];
        if row.table.eq(key) && row.column.eq(column) {
            let answer = match &row.sequence_name {
                Some(s) => Some(s.clone()),
                None => None,
            };
            return Ok(answer);
        }
        i = i + 1;
    }
    proof {
        assert(rows.skip(rows.len() as int) =~= Seq::<SerialRowModel>::empty());
    }
    Err(CatalogError::SerialLookupFailed)
}

/// Inserting an element anywhere in a sequence inserts it into the
/// sequence's multiset.
proof fn lemma_insert_to_multiset<A>(s: Seq<A>, i: int, x: A)
    requires
        0 <= i <= s.len(),
    ensures
        s.insert(i, x).to_multiset() == s.to_multiset().insert(x),
{
    broadcast use vstd::seq_lib::group_to_multiset_ensures;
    broadcast use vstd::multiset::group_multiset_axioms;

    let l = s.subrange(0, i);
    let r = s.subrange(i, s.len() as int);
    assert(s.insert(i, x) == l.push(x) + r);
    assert(s =~= l + r);
    vstd::seq_lib::lemma_multiset_commutative(l.push(x), r);
    vstd::seq_lib::lemma_multiset_commutative(l, r);
    assert(l.push(x).to_multiset() =~= l.to_multiset().insert(x));
    assert(s.insert(i, x).to_multiset() =~= s.to_multiset().insert(x));
}

/// Two equal elements at distinct indices give the element a multiset count
/// of at least two.
proof fn lemma_duplicate_count<A>(s: Seq<A>, i: int, j: int)
    requires
        0 <= i < j < s.len(),
        s[i] == s[j],
    ensures
        s.to_multiset().count(s[i]) >= 2,
{
    broadcast use vstd::seq_lib::group_to_multiset_ensures;
    broadcast use vstd::multiset::group_multiset_axioms;

    let s2 = s.remove(j);
    assert(s2[i] == s[i]);
    assert(s2.to_multiset().contains(s2[i]));
    assert(s2.to_multiset() =~= s.to_multiset().remove(s[j]));
}

/// An element with a multiset count of at least two occurs at two distinct
/// indices.
proof fn lemma_count_two_duplicate<A>(s: Seq<A>, x: A) -> (r: (int, int))
    requires
        s.to_multiset().count(x) >= 2,
    ensures
        0 <= r.0 < s.len(),
        0 <= r.1 < s.len(),
        r.0 != r.1,
        s[r.0] == x,
        s[r.1] == x,
{
    broadcast use vstd::seq_lib::group_to_multiset_ensures;
    broadcast use vstd::multiset::group_multiset_axioms;

    assert(s.to_multiset().contains(x));
    assert(s.contains(x));
    let a = choose|a: int| 0 <= a < s.len() && s[a] == x;
    let s2 = s.remove(a);
    assert(s2.to_multiset() =~= s.to_multiset().remove(x));
    assert(s2.to_multiset().count(x) >= 1);
    assert(s2.contains(x));
    let b2 = choose|b2: int| 0 <= b2 < s2.len() && s2[b2] == x;
    let b = if b2 < a {
        b2
    } else {
        b2 + 1
    };
    assert(s[b] == s2[b2]);
    (a, b)
}

/// Distinct ordinal positions carry over from the catalog rows to any
/// rearrangement of the same column multiset.
proof fn lemma_distinct_positions_transfer(source: Seq<ColumnModel>, cols: Seq<ColumnModel>)
    requires
        cols.to_multiset() == source.to_multiset(),
        distinct_positions(source),
    ensures
        distinct_positions(cols),
{
    broadcast use vstd::seq_lib::group_to_multiset_ensures;
    broadcast use vstd::multiset::group_multiset_axioms;

    assert forall|i: int, j: int|
        0 <= i < cols.len() && 0 <= j < cols.len() && i != j implies (#[trigger] cols[i]).position
        != (#[trigger] cols[j]).position by {
        let x = cols[i];
        let y = cols[j];
        if x == y {
            if i < j {
                lemma_duplicate_count(cols, i, j);
            } else {
                lemma_duplicate_count(cols, j, i);
            }
            let (a, b) = lemma_count_two_duplicate(source, x);
            assert(source[a].position == source[b].position);
        } else if x.position == y.position {
            assert(cols.to_multiset().contains(x));
            assert(cols.to_multiset().contains(y));
            assert(source.contains(x));
            assert(source.contains(y));
            let a = choose|a: int| 0 <= a < source.len() && source[a] == x;
            let b = choose|b: int| 0 <= b < source.len() && source[b] == y;
            assert(source[a].position == source[b].position);
        }
    }
}

/// Column order is strict for real tables: whenever the catalog's column
/// rows for a table carry pairwise distinct ordinal positions — as the
/// catalog guarantees — any column attachment for that table stands in
/// strictly ascending ordinal-position order.
pub proof fn lemma_columns_strictly_ascending(
    cat: CatalogModel,
    schema: Seq<char>,
    name: Seq<char>,
    cols: Seq<ColumnModel>,
)
    requires
        column_attachment_ok(cat, schema, name, cols),
        distinct_positions(column_models_for(cat.columns, schema, name)),
    ensures
        strictly_sorted_by_position(cols),
{
    lemma_distinct_positions_transfer(column_models_for(cat.columns, schema, name), cols);
}

/// A table without outgoing foreign-key constraints has no dependency
/// rows: together with `get_dependencies`'s contract — whose result type
/// admits no error at all — such a table resolves to the empty dependency
/// sequence.
pub proof fn lemma_no_foreign_keys_no_dependencies(fks: Seq<ForeignKeyModel>, name: Seq<char>)
    requires
        forall|k: int| 0 <= k < fks.len() ==> (#[trigger] fks[k]).table_name != name,
    ensures
        fk_rows_for(fks, name).len() == 0,
    decreases fks.len(),
{
    if fks.len() > 0 {
        lemma_no_foreign_keys_no_dependencies(fks.drop_last(), name);
    }
}

/// A dependency whose referenced table has a failing size lookup still
/// stands in `get_dependencies`'s result, with its size left at the
/// neutral default of zero.
pub proof fn lemma_failing_size_dependency_defaults(
    cat: CatalogModel,
    schema: Seq<char>,
    name: Seq<char>,
    t: TableModel,
)
    requires
        spec_table_size(cat, schema, name) is Err,
        attached_table_ok(cat, schema, name, defaulted_size(cat, schema, name), t),
    ensures
        t.schemaname == schema,
        t.tablename == name,
        t.size == 0,
{
}

/// The size estimate never divides by a zero page count: a relation whose
/// statistics record zero pages is priced with a page-count floor of one,
/// so its estimate is the full live-tuple count times the on-disk page
/// count.
pub proof fn lemma_zero_pages_size_floor(row: SizeRowModel, block_size: int)
    requires
        row.relpages == 0,
    ensures
        estimated_size(row, block_size) == row.reltuples * (row.relation_size / block_size),
{
}

/// Map one catalog table row to a bare table entity, nothing attached.
/// Pure and total: the identifying names are carried over unchanged.
pub fn table_from_row(row: &CatalogTableRow) -> (t: PgTable)
    ensures
        t@.tablename == row@.tablename,
        t@.schemaname == row@.schemaname,
        t@.columns == Seq::<ColumnModel>::empty(),
        t@.sequences == Seq::<Seq<char>>::empty(),
        t@.size == 0,
{
    PgTable::new(row.tablename.clone(), row.schemaname.clone())
}

/// Map one catalog column row to a column entity.  Pure and total: every
/// field is carried over unchanged.
pub fn column_from_row(row: &CatalogColumnRow) -> (c: PgColumn)
    ensures
        c@ == row@.column_model(),
{
    PgColumn {
        name: row.column_name.clone(),
        position: row.ordinal_position,
        data_type: row.data_type.clone(),
        type_oid: row.type_oid,
    }
}

/// Insert a column into a position-sorted column vector, keeping it sorted.
#[verifier::loop_isolation(false)]
fn insert_column_sorted(cols: &mut Vec<PgColumn>, c: PgColumn)
    requires
        sorted_by_position(column_views(old(cols)@)),
    ensures
        sorted_by_position(column_views(final(cols)@)),
        column_views(final(cols)@).to_multiset() == column_views(old(cols)@).to_multiset().insert(
            c@,
        ),
        final(cols)@.len() == old(cols)@.len() + 1,
{
    let mut j: usize = cols.len();
    while j > 0 && cols[j - 1].position > c.position
        invariant
            j <= cols.len(),
            forall|k: int|
                j <= k < cols@.len() ==> column_views(cols@)[k].position > c@.position,
        decreases j,
    {
        j = j - 1;
    }
    let ghost prev = column_views(cols@);
    let ghost pos = j as int;
    proof {
        assert(forall|k: int| pos <= k < prev.len() ==> prev[k].position > c@.position);
        assert forall|k: int| 0 <= k < pos implies prev[k].position <= c@.position by {
            assert(prev[pos - 1].position <= c@.position);
            if k < pos - 1 {
                assert(prev[k].position <= prev[pos - 1].position);
            }
        }
    }
    cols.insert(j, c);
    proof {
        assert(column_views(cols@) =~= prev.insert(pos, c@));
        lemma_insert_to_multiset(prev, pos, c@);
        let cur = column_views(cols@);
        assert forall|a: int, b: int|
            0 <= a < b < cur.len() implies cur[a].position <= cur[b].position by {
            if a < pos {
                assert(cur[a] == prev[a]);
            } else if a == pos {
                assert(cur[a] == c@);
            } else {
                assert(cur[a] == prev[a - 1]);
            }
            if b < pos {
                assert(cur[b] == prev[b]);
            } else if b == pos {
                assert(cur[b] == c@);
            } else {
                assert(cur[b] == prev[b - 1]);
            }
        }
    }
}

/// Answers schema questions over a catalog snapshot.
#[derive(Clone)]
pub struct PgSchemaInspector;

impl PgSchemaInspector {
    /// The columns of `table`: every catalog column row filed under the
    /// table's schema and name, mapped to a column entity, in ascending
    /// ordinal-position order.
    #[verifier::loop_isolation(false)]
    pub fn get_columns(&self, catalog: &CatalogSnapshot, table: &PgTable) -> (cols: Vec<PgColumn>)
        ensures
            column_attachment_ok(catalog@, table@.schemaname, table@.tablename, column_views(cols@)),
    {
        let ghost rows = catalog@.columns;
        let mut cols: Vec<PgColumn> = Vec::new();
        let mut i: usize = 0;
        proof {
            assert(column_views(cols@) =~= Seq::<ColumnModel>::empty());
        }

        while i < catalog.columns.len()
            invariant
                i <= catalog.columns.len(),
                sorted_by_position(column_views(cols@)),
                column_views(cols@).to_multiset() == column_models_for(
                    rows.subrange(0, i as int),
                    table@.schemaname,
                    table@.tablename,
                ).to_multiset(),
            decreases catalog.columns.len() - i,
        {
            broadcast use vstd::seq_lib::group_to_multiset_ensures;

            let ghost pre = rows.subrange(0, i as int);
            let ghost post = rows.subrange(0, i as int + 1);
            proof {
                assert(post.drop_last() =~= pre);
                assert(post.last() == rows[i as int]);
            }
            let row = &catalog.columns[i];
            if row.table_schema.eq(&table.schemaname) && row.table_name.eq(&table.tablename) {
                let c = column_from_row(row);
                insert_column_sorted(&mut cols, c);
            }
            i = i + 1;
        }
        proof {
            assert(rows.subrange(0, rows.len() as int) =~= rows);
        }
        cols
    }

    /// The approximate byte size of `table`, estimated from the catalog's
    /// page and tuple statistics alone — deliberately a cheap metadata
    /// lookup, never a scan.  Exactly one statistics row must describe the
    /// relation, and the estimate must fit the catalog's size type;
    /// otherwise the lookup fails.
    #[verifier::loop_isolation(false)]
    pub fn get_table_size(&self, catalog: &CatalogSnapshot, table: &PgTable) -> (r: Result<
        i64,
        CatalogError,
    >)
        requires
            catalog@.wf(),
        ensures
            r == spec_table_size(catalog@, table@.schemaname, table@.tablename),
    {
        let ghost rows = catalog@.size_stats;
        let ghost schema = table@.schemaname;
        let ghost name = table@.tablename;
        let mut count: usize = 0;
        let mut first: usize = 0;
        let mut i: usize = 0;
        while i < catalog.size_stats.len()
            invariant
                i <= catalog.size_stats.len(),
                count <= i,
                count == size_rows_for(rows.subrange(0, i as int), schema, name).len(),
                count > 0 ==> first < i && size_row_matches(rows[first as int], schema, name)
                    && size_rows_for(rows.subrange(0, i as int), schema, name)[0] == rows[first as int],
            decreases catalog.size_stats.len() - i,
        {
            let ghost pre = rows.subrange(0, i as int);
            let ghost post = rows.subrange(0, i as int + 1);
            proof {
                assert(post.drop_last() =~= pre);
                assert(post.last() == rows[i as int]);
            }
            let row = &catalog.size_stats[i];
            if row.relname.eq(&table.tablename) && row.nspname.eq(&table.schemaname) {
                if count == 0 {
                    first = i;
                }
                count = count + 1;
            }
            i = i + 1;
        }
        proof {
            assert(rows.subrange(0, rows.len() as int) =~= rows);
        }
        if count == 0 {
            return Err(CatalogError::RelationStatsNotFound);
        }
        if count > 1 {
            return Err(CatalogError::RelationStatsAmbiguous);
        }
        let row = &catalog.size_stats[first];
        let pages: i64 = if row.relpages == 0 {
            1
        } else {
            row.relpages
        };
        let density: i64 = row.reltuples / pages;
        let disk_pages: i64 = row.relation_size / catalog.block_size;
        match density.checked_mul(disk_pages) {
            Some(size) => Ok(size),
            None => Err(CatalogError::SizeOutOfRange),
        }
    }

    /// The sequence generators behind `table`'s serial columns: each
    /// attached column is probed in order under the table's quoted full
    /// name, and the non-empty answers are collected.  The lookup fails as
    /// soon as any probe has no recorded answer.
    #[verifier::loop_isolation(false)]
    pub fn get_sequences(&self, catalog: &CatalogSnapshot, table: &PgTable) -> (r: Result<
        Vec<PgSequence>,
        CatalogError,
    >)
        ensures
            (match r {
                Ok(seqs) => sequences_for(
                    catalog@.serial_sequences,
                    quoted_full_name_model(table@.schemaname, table@.tablename),
                    table@.columns,
                ) == Some(sequence_views(seqs@)),
                Err(e) => sequences_for(
                    catalog@.serial_sequences,
                    quoted_full_name_model(table@.schemaname, table@.tablename),
                    table@.columns,
                ) is None && e == CatalogError::SerialLookupFailed,
            }),
    {
        let ghost serials = catalog@.serial_sequences;
        let ghost cols = table@.columns;
        let key = table.quoted_full_name();
        let mut sequences: Vec<PgSequence> = Vec::new();
        let mut i: usize = 0;
        proof {
            assert(cols.subrange(0, 0) =~= Seq::<ColumnModel>::empty());
            assert(sequence_views(sequences@) =~= Seq::<Seq<char>>::empty());
        }
        while i < table.columns.len()
            invariant
                i <= table.columns.len(),
                sequences_for(serials, key@, cols.subrange(0, i as int)) == Some(
                    sequence_views(sequences@),
                ),
            decreases table.columns.len() - i,
        {
            let ghost pre = cols.subrange(0, i as int);
            let ghost post = cols.subrange(0, i as int + 1);
            proof {
                assert(post.drop_last() =~= pre);
                assert(post.last() == cols[i as int]);
            }
            let col = &table.columns[i];
            match lookup_serial(catalog, &key, &col.name) {
                Err(e) => {
                    proof {
                        lemma_sequences_for_none_extends(serials, key@, cols, i as int + 1);
                    }
                    return Err(e);
                },
                Ok(Some(full_name)) => {
                    let ghost prev = sequence_views(sequences@);
                    let ghost n = full_name@;
                    sequences.push(PgSequence { full_name });
                    proof {
                        assert(sequence_views(sequences@) =~= prev.push(n));
                    }
                },
                Ok(None) => {},
            }
            i = i + 1;
        }
        proof {
            assert(cols.subrange(0, cols.len() as int) =~= cols);
        }
        Ok(sequences)
    }

    /// Every table `table` depends on through an outgoing foreign key: one
    /// fresh, independently owned table entity per constraint row, in row
    /// order, each with columns, sequences and size attached best-effort.
    /// A failing size lookup leaves that dependency in the result with its
    /// size at the neutral default; nothing here is an error, and a table
    /// without foreign keys yields the empty sequence.
    #[verifier::loop_isolation(false)]
    pub fn get_dependencies(&self, catalog: &CatalogSnapshot, table: &PgTable) -> (deps: Vec<
        PgTable,
    >)
        requires
            catalog@.wf(),
        ensures
            deps@.len() == fk_rows_for(catalog@.foreign_keys, table@.tablename).len(),
            forall|k: int|
                0 <= k < deps@.len() ==> attached_table_ok(
                    catalog@,
                    (#[trigger] fk_rows_for(catalog@.foreign_keys, table@.tablename)[k]).foreign_table_schema,
                    fk_rows_for(catalog@.foreign_keys, table@.tablename)[k].foreign_table_name,
                    defaulted_size(
                        catalog@,
                        fk_rows_for(catalog@.foreign_keys, table@.tablename)[k].foreign_table_schema,
                        fk_rows_for(catalog@.foreign_keys, table@.tablename)[k].foreign_table_name,
                    ),
                    deps@[k]@,
                ),
    {
        let ghost fks_all = catalog@.foreign_keys;
        let ghost name = table@.tablename;
        let target_name = table.get_name();
        let mut deps: Vec<PgTable> = Vec::new();
        let mut i: usize = 0;
        proof {
            assert(fks_all.subrange(0, 0) =~= Seq::<ForeignKeyModel>::empty());
        }
        while i < catalog.foreign_keys.len()
            invariant
                i <= catalog.foreign_keys.len(),
                deps@.len() == fk_rows_for(fks_all.subrange(0, i as int), name).len(),
                forall|k: int|
                    0 <= k < deps@.len() ==> attached_table_ok(
                        catalog@,
                        (#[trigger] fk_rows_for(fks_all.subrange(0, i as int), name)[k]).foreign_table_schema,
                        fk_rows_for(fks_all.subrange(0, i as int), name)[k].foreign_table_name,
                        defaulted_size(
                            catalog@,
                            fk_rows_for(fks_all.subrange(0, i as int), name)[k].foreign_table_schema,
                            fk_rows_for(fks_all.subrange(0, i as int), name)[k].foreign_table_name,
                        ),
                        deps@[k]@,
                    ),
            decreases catalog.foreign_keys.len() - i,
        {
            let ghost pre = fks_all.subrange(0, i as int);
            let ghost post = fks_all.subrange(0, i as int + 1);
            proof {
                assert(post.drop_last() =~= pre);
                assert(post.last() == fks_all[i as int]);
            }
            let fk = &catalog.foreign_keys[i];
            if fk.table_name.eq(&target_name) {
                let mut dep = PgTable::new(
                    fk.foreign_table_name.clone(),
                    fk.foreign_table_schema.clone(),
                );
                let cols = self.get_columns(catalog, &dep);
                dep.set_columns(cols);
                match self.get_sequences(catalog, &dep) {
                    Ok(seqs) => dep.set_sequences(seqs),
                    // A failing probe degrades to an empty attachment; the
                    // dependency itself stays in the result.
                    Err(_) => {},
                }
                match self.get_table_size(catalog, &dep) {
                    Ok(size) => dep.size = size,
                    // A failing size lookup is only worth reporting to a log
                    // sink; the size stays at the neutral default.
                    Err(_) => {},
                }
                let ghost prev_len = deps@.len();
                deps.push(dep);
                proof {
                    assert(fk_rows_for(post, name) == fk_rows_for(pre, name).push(fks_all[i as int]));
                    assert forall|k: int| 0 <= k < deps@.len() implies attached_table_ok(
                        catalog@,
                        (#[trigger] fk_rows_for(post, name)[k]).foreign_table_schema,
                        fk_rows_for(post, name)[k].foreign_table_name,
                        defaulted_size(
                            catalog@,
                            fk_rows_for(post, name)[k].foreign_table_schema,
                            fk_rows_for(post, name)[k].foreign_table_name,
                        ),
                        deps@[k]@,
                    ) by {
                        if k < prev_len {
                            assert(fk_rows_for(post, name)[k] == fk_rows_for(pre, name)[k]);
                            assert(deps@[k] == deps@.subrange(0, prev_len as int)[k]);
                        } else {
                            assert(fk_rows_for(post, name)[k] == fks_all[i as int]);
                        }
                    }
                }
            }
            i = i + 1;
        }
        proof {
            assert(fks_all.subrange(0, fks_all.len() as int) =~= fks_all);
        }
        deps
    }

    /// Every table in the database outside the catalog's reserved schemas,
    /// in listing order, each with columns, sequences and size eagerly
    /// attached.  Column and sequence attachment degrade to empty on
    /// failure; a failing size lookup aborts the whole listing with that
    /// lookup's error — at this top level a table without a usable size
    /// estimate is unrecoverable.
    #[verifier::loop_isolation(false)]
    pub fn get_tables(&self, catalog: &CatalogSnapshot) -> (r: Result<Vec<PgTable>, CatalogError>)
        requires
            catalog@.wf(),
        ensures
            (match r {
                Ok(ts) => {
                    let listed = listed_table_rows(catalog@.tables);
                    &&& first_size_error(catalog@, listed) is None
                    &&& ts@.len() == listed.len()
                    &&& forall|k: int|
                        0 <= k < listed.len() ==> spec_table_size(
                            catalog@,
                            (#[trigger] listed[k]).schemaname,
                            listed[k].tablename,
                        ) is Ok
                    &&& forall|k: int|
                        0 <= k < listed.len() ==> attached_table_ok(
                            catalog@,
                            (#[trigger] listed[k]).schemaname,
                            listed[k].tablename,
                            defaulted_size(catalog@, listed[k].schemaname, listed[k].tablename),
                            ts@[k]@,
                        )
                },
                Err(e) => first_size_error(catalog@, listed_table_rows(catalog@.tables)) == Some(e),
            }),
    {
        let ghost rows = catalog@.tables;
        let pg_catalog = "pg_catalog".to_owned();
        let information_schema = "information_schema".to_owned();
        let mut items: Vec<PgTable> = Vec::new();
        let mut i: usize = 0;
        proof {
            assert(rows.subrange(0, 0) =~= Seq::<TableRowModel>::empty());
        }
        while i < catalog.tables.len()
            invariant
                i <= catalog.tables.len(),
                pg_catalog@ == "pg_catalog"@,
                information_schema@ == "information_schema"@,
                items@.len() == listed_table_rows(rows.subrange(0, i as int)).len(),
                first_size_error(catalog@, listed_table_rows(rows.subrange(0, i as int))) is None,
                forall|k: int|
                    0 <= k < items@.len() ==> spec_table_size(
                        catalog@,
                        (#[trigger] listed_table_rows(rows.subrange(0, i as int))[k]).schemaname,
                        listed_table_rows(rows.subrange(0, i as int))[k].tablename,
                    ) is Ok,
                forall|k: int|
                    0 <= k < items@.len() ==> attached_table_ok(
                        catalog@,
                        (#[trigger] listed_table_rows(rows.subrange(0, i as int))[k]).schemaname,
                        listed_table_rows(rows.subrange(0, i as int))[k].tablename,
                        defaulted_size(
                            catalog@,
                            listed_table_rows(rows.subrange(0, i as int))[k].schemaname,
                            listed_table_rows(rows.subrange(0, i as int))[k].tablename,
                        ),
                        items@[k]@,
                    ),
            decreases catalog.tables.len() - i,
        {
            let ghost pre = rows.subrange(0, i as int);
            let ghost post = rows.subrange(0, i as int + 1);
            proof {
                assert(post.drop_last() =~= pre);
                assert(post.last() == rows[i as int]);
            }
            let row = &catalog.tables[i];
            if !(row.schemaname.eq(&pg_catalog) || row.schemaname.eq(&information_schema)) {
                let mut t = table_from_row(row);
                let cols = self.get_columns(catalog, &t);
                t.set_columns(cols);
                match self.get_sequences(catalog, &t) {
                    Ok(seqs) => t.set_sequences(seqs),
                    // A failing probe degrades to an empty attachment; the
                    // table itself stays in the listing.
                    Err(_) => {},
                }
                match self.get_table_size(catalog, &t) {
                    Ok(size) => t.size = size,
                    Err(e) => {
                        proof {
                            assert(listed_table_rows(post) == listed_table_rows(pre).push(
                                rows[i as int],
                            ));
                            assert(listed_table_rows(pre).push(rows[i as int]).drop_last()
                                =~= listed_table_rows(pre));
                            assert(first_size_error(catalog@, listed_table_rows(post)) == Some(e));
                            lemma_first_size_error_extends(catalog@, rows, i as int + 1);
                        }
                        return Err(e);
                    },
                }
                let ghost prev_len = items@.len();
                items.push(t);
                proof {
                    assert(listed_table_rows(post) == listed_table_rows(pre).push(rows[i as int]));
                    assert(listed_table_rows(pre).push(rows[i as int]).drop_last()
                        =~= listed_table_rows(pre));
                    assert forall|k: int| 0 <= k < items@.len() implies {
                        &&& spec_table_size(
                            catalog@,
                            (#[trigger] listed_table_rows(post)[k]).schemaname,
                            listed_table_rows(post)[k].tablename,
                        ) is Ok
                        &&& attached_table_ok(
                            catalog@,
                            listed_table_rows(post)[k].schemaname,
                            listed_table_rows(post)[k].tablename,
                            defaulted_size(
                                catalog@,
                                listed_table_rows(post)[k].schemaname,
                                listed_table_rows(post)[k].tablename,
                            ),
                            items@[k]@,
                        )
                    } by {
                        if k < prev_len {
                            assert(listed_table_rows(post)[k] == listed_table_rows(pre)[k]);
                        } else {
                            assert(listed_table_rows(post)[k] == rows[i as int]);
                        }
                    }
                }
            }
            i = i + 1;
        }
        proof {
            assert(rows.subrange(0, rows.len() as int) =~= rows);
        }
        Ok(items)
    }
}

} // verus!
