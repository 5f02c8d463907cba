//! Per-table engine options: what the opener may supply, and how each
//! table's options are chosen from that or from the table's own function.
//!
//! The options themselves are values of the engine. Nothing here looks
//! inside one, so they are a type parameter.

use crate::schema::{has_table, Schema, TableDefinition};
use vstd::prelude::*;

verus! {

/// The value that `entries` holds for `name`: that of the last entry of that
/// name.
pub open spec fn lookup<O>(entries: Seq<(String, O)>, name: Seq<char>) -> Option<O>
    decreases entries.len(),
{
    if entries.len() == 0 {
        None
    } else if entries.last().0@ == name {
        Some(entries.last().1)
    } else {
        lookup(entries.drop_last(), name)
    }
}

/// Options by table name, as an opener supplies them.
#[derive(Debug, Clone)]
pub struct TableConfigMap<O> {
    entries: Vec<(String, O)>,
}

impl<O> View for TableConfigMap<O> {
    type V = Map<Seq<char>, O>;

    closed spec fn view(&self) -> Map<Seq<char>, O> {
        Map::new(
            |n: Seq<char>| lookup(self.entries@, n).is_some(),
            |n: Seq<char>| lookup(self.entries@, n).unwrap(),
        )
    }
}

impl<O> TableConfigMap<O> {
    pub fn new() -> (r: Self)
        ensures
            r@ == Map::<Seq<char>, O>::empty(),
    {
        let r = TableConfigMap { entries: Vec::new() };
        assert(r@ =~= Map::<Seq<char>, O>::empty());
        r
    }

    /// Sets the options of the table named `name`, in place of any that were
    /// set for it before.
    pub fn insert(&mut self, name: String, options: O)
        ensures
            final(self)@ == old(self)@.insert(name@, options),
    {
        let ghost before = self.entries@;
        self.entries.push((name, options));
        proof {
            assert(self.entries@.drop_last() =~= before);
            assert(self@ =~= old(self)@.insert(name@, options));
        }
    }

    /// The options set for the table named `name`.
    pub fn get(&self, name: &String) -> (r: Option<&O>)
        ensures
            match r {
                Some(o) => self@.contains_key(name@) && *o == self@[name@],
                None => !self@.contains_key(name@),
            },
    {
        let mut i: usize = self.entries.len();
        assert(self.entries@.take(i as int) =~= self.entries@);
        while i > 0
            invariant
                i <= self.entries@.len(),
                lookup(self.entries@, name@) == lookup(self.entries@.take(i as int), name@),
            decreases i,
        {
            assert(self.entries@.take(i as int).drop_last() =~= self.entries@.take(i - 1));
            i -= 1;
            if self.entries[i].0 == *name {
                return Some(&self.entries[i].1);
            }
        }
        None
    }

    pub fn contains(&self, name: &String) -> (r: bool)
        ensures
            r == self@.contains_key(name@),
    {
        self.get(name).is_some()
    }
}

/// The options that a table is opened with.
#[derive(Debug, PartialEq, Eq)]
pub enum ResolvedOptions<'a, O> {
    /// What the function of this name returns.
    Function(String),
    /// What the opener supplied for the table.
    Supplied(&'a O),
}

/// Why no options could be chosen.
#[derive(Debug, Clone, PartialEq, Eq)]
pub enum OptionsError {
    /// The opener supplied options, but none for the table of this name.
    MissingTableOverride(String),
}

impl View for OptionsError {
    type V = Seq<char>;

    /// The name of the table that has no options.
    open spec fn view(&self) -> Seq<char> {
        match self {
            OptionsError::MissingTableOverride(n) => n@,
        }
    }
}

/// A `ResolvedOptions` with its name as a sequence of characters and its
/// options by value.
pub enum OptionsChoice<O> {
    Function(Seq<char>),
    Supplied(O),
}

impl<'a, O> View for ResolvedOptions<'a, O> {
    type V = OptionsChoice<O>;

    open spec fn view(&self) -> OptionsChoice<O> {
        match self {
            ResolvedOptions::Function(f) => OptionsChoice::Function(f@),
            ResolvedOptions::Supplied(o) => OptionsChoice::Supplied(**o),
        }
    }
}

/// What an opener supplied, as a map.
pub open spec fn supplied<O>(overrides: Option<&TableConfigMap<O>>) -> Option<Map<Seq<char>, O>> {
    match overrides {
        None => None,
        Some(m) => Some(m@),
    }
}

/// The options of one table: where the opener supplied options, those
/// supplied for this table, and the table's name as the error where there are
/// none for it; else what the table's own function returns. The two sources
/// are never mixed.
pub open spec fn resolved<O>(table: TableDefinition, overrides: Option<Map<Seq<char>, O>>) -> Result<
    OptionsChoice<O>,
    Seq<char>,
> {
    match overrides {
        None => Ok(OptionsChoice::Function(table.options_override.function())),
        Some(m) => if m.contains_key(table.name@) {
            Ok(OptionsChoice::Supplied(m[table.name@]))
        } else {
            Err(table.name@)
        },
    }
}

/// Chooses the options of one table.
pub fn resolve<'a, O>(table: &TableDefinition, overrides: Option<&'a TableConfigMap<O>>) -> (r:
    Result<ResolvedOptions<'a, O>, OptionsError>)
    ensures
        match r {
            Ok(o) => resolved(*table, supplied(overrides)) == Ok::<OptionsChoice<O>, Seq<char>>(o@),
            Err(e) => resolved(*table, supplied(overrides)) == Err::<OptionsChoice<O>, Seq<char>>(
                e@,
            ),
        },
{
    match overrides {
        None => Ok(ResolvedOptions::Function(table.options_override.function_name())),
        Some(m) => match m.get(&table.name) {
            Some(o) => Ok(ResolvedOptions::Supplied(o)),
            None => Err(OptionsError::MissingTableOverride(table.name.clone())),
        },
    }
}

/// The name of the first table at or after `from` for which no options can
/// be chosen.
pub open spec fn first_unresolved_from<O>(
    tables: Seq<TableDefinition>,
    overrides: Option<Map<Seq<char>, O>>,
    from: int,
) -> Option<Seq<char>>
    decreases tables.len() - from,
{
    if from < 0 || from >= tables.len() {
        None
    } else {
        match resolved(tables[from], overrides) {
            Err(n) => Some(n),
            Ok(_) => first_unresolved_from(tables, overrides, from + 1),
        }
    }
}

/// Options can be chosen for every table exactly where the opener supplied
/// none at all, or some for each table. Otherwise the name found is that of a
/// declared table which the supplied options leave out, and of the first such
/// table.
pub proof fn lemma_unresolved<O>(
    tables: Seq<TableDefinition>,
    overrides: Option<Map<Seq<char>, O>>,
    from: int,
)
    requires
        0 <= from,
    ensures
        first_unresolved_from(tables, overrides, from).is_none() <==> (overrides matches Some(m)
            ==> forall|i: int| from <= i < tables.len() ==> m.contains_key(#[trigger] tables[i].name@)),
        overrides.is_none() ==> first_unresolved_from(tables, overrides, from).is_none(),
        first_unresolved_from(tables, overrides, from) matches Some(n) ==> overrides matches Some(m)
            && !m.contains_key(n) && exists|i: int|
            {
                &&& from <= i < tables.len()
                &&& (#[trigger] tables[i]).name@ == n
                &&& forall|j: int| from <= j < i ==> m.contains_key((#[trigger] tables[j]).name@)
            },
    decreases tables.len() - from,
{
    if from < tables.len() {
        lemma_unresolved(tables, overrides, from + 1);
        match first_unresolved_from(tables, overrides, from) {
            Some(n) => {
                let m = overrides.unwrap();
                if m.contains_key(tables[from].name@) {
                    let i = choose|i: int|
                        {
                            &&& from + 1 <= i < tables.len()
                            &&& (#[trigger] tables[i]).name@ == n
                            &&& forall|j: int|
                                from + 1 <= j < i ==> m.contains_key((#[trigger] tables[j]).name@)
                        };
                    assert(from <= i < tables.len() && tables[i].name@ == n);
                    assert forall|j: int| from <= j < i implies m.contains_key(
                        (#[trigger] tables[j]).name@,
                    ) by {}
                } else {
                    assert(tables[from].name@ == n);
                }
            },
            None => {},
        }
    }
}

/// Chooses the options of every table of a schema, in declaration order. It
/// fails on the first table that the opener's options leave out.
pub fn resolve_all<'a, O>(schema: &Schema, overrides: Option<&'a TableConfigMap<O>>) -> (r: Result<
    Vec<ResolvedOptions<'a, O>>,
    OptionsError,
>)
    ensures
        match r {
            Ok(v) => {
                &&& first_unresolved_from(schema.tables@, supplied(overrides), 0).is_none()
                &&& v@.len() == schema.tables@.len()
                &&& forall|i: int|
                    0 <= i < v@.len() ==> resolved(schema.tables@[i], supplied(overrides)) == Ok::<
                        OptionsChoice<O>,
                        Seq<char>,
                    >((#[trigger] v@[i])@)
            },
            Err(e) => first_unresolved_from(schema.tables@, supplied(overrides), 0) == Some(e@),
        },
{
    let mut out: Vec<ResolvedOptions<'a, O>> = Vec::new();
    let mut i: usize = 0;
    while i < schema.tables.len()
        invariant
            i <= schema.tables@.len(),
            out@.len() == i,
            first_unresolved_from(schema.tables@, supplied(overrides), 0) == first_unresolved_from(
                schema.tables@,
                supplied(overrides),
                i as int,
            ),
            forall|j: int|
                0 <= j < i ==> resolved(schema.tables@[j], supplied(overrides)) == Ok::<
                    OptionsChoice<O>,
                    Seq<char>,
                >((#[trigger] out@[j])@),
        decreases schema.tables@.len() - i,
    {
        match resolve(&schema.tables[i], overrides) {
            Ok(o) => {
                out.push(o);
            },
            Err(e) => {
                return Err(e);
            },
        }
        i += 1;
    }
    Ok(out)
}

proof fn lemma_has_table_step(tables: Seq<TableDefinition>, k: int, name: Seq<char>)
    requires
        0 <= k < tables.len(),
    ensures
        has_table(tables.take(k + 1), name) <==> has_table(tables.take(k), name) || tables[k].name@
            == name,
{
    let shorter = tables.take(k);
    let longer = tables.take(k + 1);
    if has_table(shorter, name) {
        let i = choose|i: int| 0 <= i < shorter.len() && (#[trigger] shorter[i]).name@ == name;
        assert(longer[i].name@ == name);
    }
    if tables[k].name@ == name {
        assert(longer[k].name@ == name);
    }
    if has_table(longer, name) {
        let i = choose|i: int| 0 <= i < longer.len() && (#[trigger] longer[i]).name@ == name;
        if i < k {
            assert(shorter[i].name@ == name);
        }
    }
}

/// A builder of the options that an opener supplies: it starts with default
/// options for every table of a schema, takes other options for any of them,
/// and ends as a `TableConfigMap` that leaves no table out.
pub struct Configurator<O> {
    map: TableConfigMap<O>,
}

impl<O> View for Configurator<O> {
    type V = Map<Seq<char>, O>;

    closed spec fn view(&self) -> Map<Seq<char>, O> {
        self.map@
    }
}

impl<O> Configurator<O> {
    /// Starts with what `default_options` returns, called once for each
    /// table.
    pub fn init<F: Fn() -> O>(schema: &Schema, default_options: F) -> (r: Self)
        requires
            default_options.requires(()),
        ensures
            forall|n: Seq<char>| r@.contains_key(n) <==> has_table(schema.tables@, n),
            forall|n: Seq<char>| r@.contains_key(n) ==> default_options.ensures((), #[trigger] r@[n]),
    {
        let mut map: TableConfigMap<O> = TableConfigMap::new();
        let mut k: usize = 0;
        while k < schema.tables.len()
            invariant
                k <= schema.tables@.len(),
                default_options.requires(()),
                forall|n: Seq<char>|
                    map@.contains_key(n) <==> has_table(schema.tables@.take(k as int), n),
                forall|n: Seq<char>|
                    map@.contains_key(n) ==> default_options.ensures((), #[trigger] map@[n]),
            decreases schema.tables@.len() - k,
        {
            let options = default_options();
            let ghost before = map@;
            map.insert(schema.tables[k].name.clone(), options);
            proof {
                let name = schema.tables@[k as int].name@;
                assert forall|n: Seq<char>|
                    map@.contains_key(n) <==> has_table(schema.tables@.take(k + 1), n) by {
                    lemma_has_table_step(schema.tables@, k as int, n);
                    assert(map@.contains_key(n) <==> before.contains_key(n) || n == name);
                }
            }
            k += 1;
        }
        assert(schema.tables@.take(k as int) =~= schema.tables@);
        Configurator { map }
    }

    /// Takes `options` for the table named `name`, in place of those it had.
    /// Returns whether there is such a table; where there is none, nothing
    /// changes.
    pub fn set(&mut self, name: String, options: O) -> (r: bool)
        ensures
            r == old(self)@.contains_key(name@),
            final(self)@ == if r {
                old(self)@.insert(name@, options)
            } else {
                old(self)@
            },
    {
        if self.map.contains(&name) {
            self.map.insert(name, options);
            true
        } else {
            false
        }
    }

    /// The options held for the table named `name`.
    pub fn get(&self, name: &String) -> (r: Option<&O>)
        ensures
            match r {
                Some(o) => self@.contains_key(name@) && *o == self@[name@],
                None => !self@.contains_key(name@),
            },
    {
        self.map.get(name)
    }

    /// Ends the building.
    pub fn build(self) -> (r: TableConfigMap<O>)
        ensures
            r@ == self@,
    {
        self.map
    }
}

/// Options that name every table of a schema leave none unresolved: what a
/// `Configurator` of the schema builds always opens it.
pub proof fn lemma_complete_overrides_resolve<O>(schema: Schema, overrides: Map<Seq<char>, O>)
    requires
        forall|n: Seq<char>| has_table(schema.tables@, n) ==> overrides.contains_key(n),
    ensures
        first_unresolved_from(schema.tables@, Some(overrides), 0).is_none(),
{
    lemma_unresolved(schema.tables@, Some(overrides), 0);
    assert forall|i: int| 0 <= i < schema.tables@.len() implies overrides.contains_key(
        #[trigger] schema.tables@[i].name@,
    ) by {
        assert(has_table(schema.tables@, schema.tables@[i].name@));
    }
}

} // verus!
