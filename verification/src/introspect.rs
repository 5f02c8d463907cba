//! Inspection of a table set that is open read-only: pages of a table's
//! entries and the count of its keys, each table addressed by its name.
//!
//! Every read is handed the entries that a catch-up with the primary has
//! just brought, keys and values rendered as text, in the engine's iteration
//! order; the handle keeps them as what the table held at its last catch-up.

use crate::schema::{position_from, Schema};
use vstd::prelude::*;

verus! {

/// No table has this name.
#[derive(Debug, Clone, PartialEq, Eq)]
pub struct NotFoundError(pub String);

impl View for NotFoundError {
    type V = Seq<char>;

    open spec fn view(&self) -> Seq<char> {
        self.0@
    }
}

/// Where the page `page_number` of size `page_size` begins among `len`
/// entries: after `page_number * page_size` of them, or at the end where
/// there are not that many.
pub open spec fn page_start(len: int, page_size: int, page_number: int) -> int {
    if page_number * page_size < len {
        page_number * page_size
    } else {
        len
    }
}

/// Where that page ends: `page_size` entries on, or at the end.
pub open spec fn page_end(len: int, page_size: int, page_number: int) -> int {
    let start = page_start(len, page_size, page_number);
    if start + page_size < len {
        start + page_size
    } else {
        len
    }
}

/// The entries `[page_number * page_size, page_number * page_size + page_size)`
/// of `entries`, as far as there are any.
pub open spec fn page<T>(entries: Seq<T>, page_size: int, page_number: int) -> Seq<T> {
    entries.subrange(
        page_start(entries.len() as int, page_size, page_number),
        page_end(entries.len() as int, page_size, page_number),
    )
}

/// A page holds at most `page_size` entries; its entry `i` is entry
/// `page_number * page_size + i` of the whole; it is full where the whole
/// reaches that far, and empty where the page begins at or beyond the end.
pub proof fn lemma_page<T>(entries: Seq<T>, page_size: int, page_number: int)
    requires
        0 <= page_size,
        0 <= page_number,
    ensures
        page(entries, page_size, page_number).len() <= page_size,
        forall|i: int|
            0 <= i < page(entries, page_size, page_number).len() ==> #[trigger] page(
                entries,
                page_size,
                page_number,
            )[i] == entries[page_number * page_size + i],
        page_number * page_size + page_size <= entries.len() ==> page(
            entries,
            page_size,
            page_number,
        ).len() == page_size,
        page_number * page_size >= entries.len() ==> page(entries, page_size, page_number).len()
            == 0,
{
    assert(0 <= page_number * page_size) by (nonlinear_arith)
        requires
            0 <= page_size,
            0 <= page_number,
    ;
}

/// Copies one page out of a table's entries.
pub fn page_of(entries: &Vec<(String, String)>, page_size: u16, page_number: usize) -> (r: Vec<
    (String, String),
>)
    ensures
        r@ == page(entries@, page_size as int, page_number as int),
{
    let len = entries.len();
    let size: usize = page_size as usize;
    assert(0 <= page_number * size) by (nonlinear_arith)
        requires
            0 <= size,
            0 <= page_number,
    ;
    let start: usize = match page_number.checked_mul(size) {
        Some(s) => if s < len {
            s
        } else {
            len
        },
        None => len,
    };
    let end: usize = if len - start > size {
        start + size
    } else {
        len
    };
    let mut out: Vec<(String, String)> = Vec::new();
    let mut i: usize = start;
    while i < end
        invariant
            start <= i <= end <= entries@.len(),
            out@ == entries@.subrange(start as int, i as int),
        decreases end - i,
    {
        let e = &entries[i];
        out.push((e.0.clone(), e.1.clone()));
        assert(out@ =~= entries@.subrange(start as int, i + 1));
        i += 1;
    }
    out
}

/// The engine's account of the memory that it uses, in bytes.
#[derive(Debug, Clone, Copy, PartialEq, Eq, Structural)]
pub struct MemoryUsageStats {
    /// All tables in memory.
    pub mem_table_total: u64,
    /// Those tables in memory that are not yet written out.
    pub mem_table_unflushed: u64,
    /// Readers of tables on disk.
    pub mem_table_readers_total: u64,
    /// The cache.
    pub cache_total: u64,
}

/// The memory of all tables and that of the cache, out of the engine's
/// account for the whole engine; the engine's error as it came.
pub fn get_memory_usage<E>(stats: Result<MemoryUsageStats, E>) -> (r: Result<(u64, u64), E>)
    ensures
        r == match stats {
            Ok(s) => Ok::<(u64, u64), E>((s.mem_table_total, s.cache_total)),
            Err(e) => Err::<(u64, u64), E>(e),
        },
{
    match stats {
        Ok(s) => Ok((s.mem_table_total, s.cache_total)),
        Err(e) => Err(e),
    }
}

/// The entries of the table named `name`, where `contents` holds the
/// entries of each table of `tables` at the table's position.
pub open spec fn entries_of(
    tables: Seq<crate::schema::TableDefinition>,
    contents: Seq<Vec<(String, String)>>,
    name: Seq<char>,
) -> Option<Seq<(String, String)>> {
    match position_from(tables, name, 0) {
        Some(i) => Some(contents[i]@),
        None => None,
    }
}

/// The tables of a schema as a reader sees them: for each table the entries
/// that it held at its last catch-up with the primary.
#[derive(Debug, Clone)]
pub struct ReadOnlyHandle {
    schema: Schema,
    contents: Vec<Vec<(String, String)>>,
}

impl ReadOnlyHandle {
    pub closed spec fn schema(&self) -> Schema {
        self.schema
    }

    /// The entries of each table, at the table's position in the schema.
    pub closed spec fn contents(&self) -> Seq<Vec<(String, String)>> {
        self.contents@
    }

    /// There is one list of entries for each table.
    pub open spec fn wf(&self) -> bool {
        self.contents().len() == self.schema().tables@.len()
    }

    /// What the handle holds of the table named `name`.
    pub open spec fn entries(&self, name: Seq<char>) -> Option<Seq<(String, String)>> {
        entries_of(self.schema().tables@, self.contents(), name)
    }

    /// A handle on the tables of `schema` that has not caught up yet: every
    /// table is empty.
    pub fn new(schema: Schema) -> (r: Self)
        ensures
            r.wf(),
            r.schema() == schema,
            forall|i: int| 0 <= i < r.contents().len() ==> (#[trigger] r.contents()[i])@.len() == 0,
    {
        let mut contents: Vec<Vec<(String, String)>> = Vec::new();
        let mut i: usize = 0;
        while i < schema.tables.len()
            invariant
                i <= schema.tables@.len(),
                contents@.len() == i,
                forall|j: int| 0 <= j < i ==> (#[trigger] contents@[j])@.len() == 0,
            decreases schema.tables@.len() - i,
        {
            contents.push(Vec::new());
            i += 1;
        }
        ReadOnlyHandle { schema, contents }
    }

    /// Finds the table named `name`: the first of that name.
    pub fn locate(&self, table_name: &String) -> (r: Result<usize, NotFoundError>)
        ensures
            match r {
                Ok(i) => self.schema().position(table_name@) == Some(i as int) && i
                    < self.schema().tables@.len(),
                Err(e) => self.schema().position(table_name@).is_none() && e@ == table_name@,
            },
    {
        match self.schema.find_table(table_name) {
            Some(i) => Ok(i),
            None => Err(NotFoundError(table_name.clone())),
        }
    }

    /// What the table named `table_name` held at its last catch-up.
    pub fn entries_at_last_catch_up(&self, table_name: &String) -> (r: Result<
        &Vec<(String, String)>,
        NotFoundError,
    >)
        requires
            self.wf(),
        ensures
            match self.entries(table_name@) {
                Some(entries) => r.is_ok() && r.unwrap()@ == entries,
                None => r.is_err() && r.unwrap_err()@ == table_name@,
            },
    {
        match self.schema.find_table(table_name) {
            Some(i) => Ok(&self.contents[i]),
            None => Err(NotFoundError(table_name.clone())),
        }
    }

    /// The page `page_number` of size `page_size` of the table named
    /// `table_name`, in iteration order, out of `caught_up`: the entries that
    /// a catch-up with the primary has just brought. The handle keeps them
    /// as what the table holds; no other table changes. A page beyond the
    /// table's end is empty.
    pub fn dump(
        &mut self,
        table_name: &String,
        caught_up: Vec<(String, String)>,
        page_size: u16,
        page_number: usize,
    ) -> (r: Result<Vec<(String, String)>, NotFoundError>)
        requires
            old(self).wf(),
        ensures
            final(self).wf(),
            final(self).schema() == old(self).schema(),
            match old(self).schema().position(table_name@) {
                Some(i) => {
                    &&& r.is_ok()
                    &&& r.unwrap()@ == page(caught_up@, page_size as int, page_number as int)
                    &&& final(self).contents() == old(self).contents().update(i, caught_up)
                },
                None => r.is_err() && r.unwrap_err()@ == table_name@ && final(self).contents()
                    == old(self).contents(),
            },
    {
        match self.schema.find_table(table_name) {
            Some(i) => {
                let page = page_of(&caught_up, page_size, page_number);
                self.contents.set(i, caught_up);
                Ok(page)
            },
            None => Err(NotFoundError(table_name.clone())),
        }
    }

    /// The number of entries of the table named `table_name`, counted over
    /// `caught_up`: the entries that a catch-up with the primary has just
    /// brought. The handle keeps them as what the table holds.
    pub fn count_keys(&mut self, table_name: &String, caught_up: Vec<(String, String)>) -> (r:
        Result<usize, NotFoundError>)
        requires
            old(self).wf(),
        ensures
            final(self).wf(),
            final(self).schema() == old(self).schema(),
            match old(self).schema().position(table_name@) {
                Some(i) => {
                    &&& r == Ok::<usize, NotFoundError>(caught_up@.len() as usize)
                    &&& final(self).contents() == old(self).contents().update(i, caught_up)
                },
                None => r.is_err() && r.unwrap_err()@ == table_name@ && final(self).contents()
                    == old(self).contents(),
            },
    {
        match self.schema.find_table(table_name) {
            Some(i) => {
                let count = caught_up.len();
                self.contents.set(i, caught_up);
                Ok(count)
            },
            None => Err(NotFoundError(table_name.clone())),
        }
    }

    /// `dump`, for callers that hold the table's name by value.
    pub fn dump_table(
        &mut self,
        table_name: String,
        caught_up: Vec<(String, String)>,
        page_size: u16,
        page_number: usize,
    ) -> (r: Result<Vec<(String, String)>, NotFoundError>)
        requires
            old(self).wf(),
        ensures
            final(self).wf(),
            final(self).schema() == old(self).schema(),
            match old(self).schema().position(table_name@) {
                Some(i) => {
                    &&& r.is_ok()
                    &&& r.unwrap()@ == page(caught_up@, page_size as int, page_number as int)
                    &&& final(self).contents() == old(self).contents().update(i, caught_up)
                },
                None => r.is_err() && r.unwrap_err()@ == table_name@ && final(self).contents()
                    == old(self).contents(),
            },
    {
        self.dump(&table_name, caught_up, page_size, page_number)
    }

    /// `count_keys`, for callers that hold the table's name by value.
    pub fn count_table_keys(&mut self, table_name: String, caught_up: Vec<(String, String)>) -> (r:
        Result<usize, NotFoundError>)
        requires
            old(self).wf(),
        ensures
            final(self).wf(),
            final(self).schema() == old(self).schema(),
            match old(self).schema().position(table_name@) {
                Some(i) => {
                    &&& r == Ok::<usize, NotFoundError>(caught_up@.len() as usize)
                    &&& final(self).contents() == old(self).contents().update(i, caught_up)
                },
                None => r.is_err() && r.unwrap_err()@ == table_name@ && final(self).contents()
                    == old(self).contents(),
            },
    {
        self.count_keys(&table_name, caught_up)
    }

    /// Each table's name with the names of its key and value types.
    pub fn describe_all_tables(&self) -> (r: Vec<(String, (String, String))>)
        ensures
            r@.len() == self.schema().tables@.len(),
            forall|i: int|
                0 <= i < r@.len() ==> #[trigger] r@[i] == (
                    self.schema().tables@[i].name,
                    (self.schema().tables@[i].key_type, self.schema().tables@[i].value_type),
                ),
    {
        self.schema.describe_tables()
    }

    /// Each table's name with the names of its key and value types.
    pub fn describe_tables(&self) -> (r: Vec<(String, (String, String))>)
        ensures
            r@.len() == self.schema().tables@.len(),
            forall|i: int|
                0 <= i < r@.len() ==> #[trigger] r@[i] == (
                    self.schema().tables@[i].name,
                    (self.schema().tables@[i].key_type, self.schema().tables@[i].value_type),
                ),
    {
        self.schema.describe_tables()
    }

    /// The name of the table set that the handle reads.
    pub fn primary_db_name(&self) -> (r: String)
        ensures
            r == self.schema().name,
    {
        self.schema.primary_db_name()
    }
}

/// A name is found exactly where the schema declares a table of that name:
/// `dump` and `count_keys` answer `NotFoundError` for every other name and
/// for no declared one.
pub proof fn lemma_found_iff_declared(
    tables: Seq<crate::schema::TableDefinition>,
    contents: Seq<Vec<(String, String)>>,
    name: Seq<char>,
)
    ensures
        entries_of(tables, contents, name).is_some() <==> crate::schema::has_table(tables, name),
{
    crate::schema::lemma_position_from(tables, name, 0);
    if position_from(tables, name, 0).is_some() {
        let i = position_from(tables, name, 0).unwrap();
        assert(tables[i].name@ == name);
    }
}

/// After a catch-up of one table, the handle holds of that table exactly what
/// the catch-up brought, and of every other table what it held before.
pub proof fn lemma_catch_up_entries(
    tables: Seq<crate::schema::TableDefinition>,
    contents: Seq<Vec<(String, String)>>,
    name: Seq<char>,
    entries: Vec<(String, String)>,
    other: Seq<char>,
)
    requires
        contents.len() == tables.len(),
        position_from(tables, name, 0).is_some(),
    ensures
        entries_of(tables, contents.update(position_from(tables, name, 0).unwrap(), entries), name)
            == Some(entries@),
        position_from(tables, other, 0) != position_from(tables, name, 0) ==> entries_of(
            tables,
            contents.update(position_from(tables, name, 0).unwrap(), entries),
            other,
        ) == entries_of(tables, contents, other),
{
    crate::schema::lemma_position_from(tables, name, 0);
    crate::schema::lemma_position_from(tables, other, 0);
}

} // verus!
