//! How a table set is opened: the plan that is handed to the engine, and the
//! steps that follow the engine's replies until every table is bound.
//!
//! Paths, engine options and engine errors are the engine's own values; they
//! are carried, never read, so they are type parameters.

use crate::options::{
    first_unresolved_from, resolve, resolved, supplied, OptionsChoice, OptionsError,
    ResolvedOptions, TableConfigMap,
};
use crate::schema::Schema;
use vstd::prelude::*;

verus! {

/// In which way the engine is opened.
#[derive(Debug, Clone, PartialEq, Eq)]
pub enum OpenMode<P> {
    /// Read-write, as the one owner of the store at this path.
    Primary(P),
    /// Read-only, beside the primary at the first path, with the second path
    /// for what the reader itself has to write.
    Secondary(P, P),
}

/// Why a table may not be changed.
#[derive(Debug, Clone, Copy, PartialEq, Eq, Structural)]
pub enum AccessError {
    /// The table set is open as a secondary, which only reads.
    ReadOnly,
}

impl<P> OpenMode<P> {
    /// Whether tables opened in this mode may be written: those of a primary
    /// may, those of a secondary may not.
    pub fn require_writable(&self) -> (r: Result<(), AccessError>)
        ensures
            r == match self {
                OpenMode::Primary(_) => Ok::<(), AccessError>(()),
                OpenMode::Secondary(_, _) => Err::<(), AccessError>(AccessError::ReadOnly),
            },
    {
        match self {
            OpenMode::Primary(_) => Ok(()),
            OpenMode::Secondary(_, _) => Err(AccessError::ReadOnly),
        }
    }
}

/// One table as the engine is to open it.
#[derive(Debug, PartialEq, Eq)]
pub struct ColumnFamily<'a, O> {
    pub name: String,
    pub options: ResolvedOptions<'a, O>,
}

/// What is handed to the engine to open a table set.
#[derive(Debug, PartialEq, Eq)]
pub struct OpenPlan<'a, P, O> {
    pub mode: OpenMode<P>,
    /// The options of the engine as a whole, where the opener gave any.
    pub global_options: Option<O>,
    /// One entry for each table of the schema, in declaration order.
    pub column_families: Vec<ColumnFamily<'a, O>>,
}

/// Primary without a secondary path, secondary with one.
pub open spec fn mode_of<P>(path: P, secondary_path: Option<P>) -> OpenMode<P> {
    match secondary_path {
        None => OpenMode::Primary(path),
        Some(s) => OpenMode::Secondary(path, s),
    }
}

/// `column_families` holds every table of `schema`, each under its name and
/// with the options chosen for it.
pub open spec fn covers<O>(
    column_families: Seq<ColumnFamily<'_, O>>,
    schema: Schema,
    overrides: Option<Map<Seq<char>, O>>,
) -> bool {
    &&& column_families.len() == schema.tables@.len()
    &&& forall|i: int|
        0 <= i < schema.tables@.len() ==> {
            &&& (#[trigger] column_families[i]).name@ == schema.tables@[i].name@
            &&& resolved(schema.tables@[i], overrides) == Ok::<OptionsChoice<O>, Seq<char>>(
                column_families[i].options@,
            )
        }
}

/// `plan` opens every table of `schema`, each under its name and with the
/// options chosen for it.
pub open spec fn plan_covers<P, O>(
    plan: OpenPlan<'_, P, O>,
    schema: Schema,
    overrides: Option<Map<Seq<char>, O>>,
) -> bool {
    covers(plan.column_families@, schema, overrides)
}

/// Chooses the options of every table, in declaration order, and fails on
/// the first table that the opener's options leave out.
pub fn plan_column_families<'a, O>(
    schema: &Schema,
    tables_db_options_override: Option<&'a TableConfigMap<O>>,
) -> (r: Result<Vec<ColumnFamily<'a, O>>, OptionsError>)
    ensures
        match r {
            Ok(column_families) => {
                &&& first_unresolved_from(
                    schema.tables@,
                    supplied(tables_db_options_override),
                    0,
                ).is_none()
                &&& covers(column_families@, *schema, supplied(tables_db_options_override))
            },
            Err(e) => first_unresolved_from(
                schema.tables@,
                supplied(tables_db_options_override),
                0,
            ) == Some(e@),
        },
{
    let mut column_families: Vec<ColumnFamily<'a, O>> = Vec::new();
    let mut i: usize = 0;
    while i < schema.tables.len()
        invariant
            i <= schema.tables@.len(),
            column_families@.len() == i,
            first_unresolved_from(schema.tables@, supplied(tables_db_options_override), 0)
                == first_unresolved_from(
                schema.tables@,
                supplied(tables_db_options_override),
                i as int,
            ),
            forall|j: int|
                0 <= j < i ==> {
                    &&& (#[trigger] column_families@[j]).name@ == schema.tables@[j].name@
                    &&& resolved(schema.tables@[j], supplied(tables_db_options_override)) == Ok::<
                        OptionsChoice<O>,
                        Seq<char>,
                    >(column_families@[j].options@)
                },
        decreases schema.tables@.len() - i,
    {
        let table = &schema.tables[i];
        match resolve(table, tables_db_options_override) {
            Ok(options) => {
                column_families.push(ColumnFamily { name: table.name.clone(), options });
            },
            Err(e) => {
                return Err(e);
            },
        }
        i += 1;
    }
    Ok(column_families)
}

/// Plans the opening of a table set at `path`: as a secondary where
/// `as_secondary_with_path` is given, else as the primary. Where the opener
/// supplies options they must name every table; the plan fails on the first
/// that they leave out, and nothing is asked of the engine.
pub fn open_tables_impl<'a, P, O>(
    schema: &Schema,
    path: P,
    as_secondary_with_path: Option<P>,
    global_db_options_override: Option<O>,
    tables_db_options_override: Option<&'a TableConfigMap<O>>,
) -> (r: Result<OpenPlan<'a, P, O>, OptionsError>)
    ensures
        match r {
            Ok(plan) => {
                &&& first_unresolved_from(
                    schema.tables@,
                    supplied(tables_db_options_override),
                    0,
                ).is_none()
                &&& plan.mode == mode_of(path, as_secondary_with_path)
                &&& plan.global_options == global_db_options_override
                &&& plan_covers(plan, *schema, supplied(tables_db_options_override))
            },
            Err(e) => first_unresolved_from(
                schema.tables@,
                supplied(tables_db_options_override),
                0,
            ) == Some(e@),
        },
{
    match plan_column_families(schema, tables_db_options_override) {
        Err(e) => Err(e),
        Ok(column_families) => {
            let mode = match as_secondary_with_path {
                None => OpenMode::Primary(path),
                Some(s) => OpenMode::Secondary(path, s),
            };
            Ok(OpenPlan { mode, global_options: global_db_options_override, column_families })
        },
    }
}

/// Plans the opening of a table set as the primary at `path`.
pub fn open_tables_read_write<'a, P, O>(
    schema: &Schema,
    path: P,
    global_db_options_override: Option<O>,
    tables_db_options_override: Option<&'a TableConfigMap<O>>,
) -> (r: Result<OpenPlan<'a, P, O>, OptionsError>)
    ensures
        match r {
            Ok(plan) => {
                &&& first_unresolved_from(
                    schema.tables@,
                    supplied(tables_db_options_override),
                    0,
                ).is_none()
                &&& plan.mode == OpenMode::Primary(path)
                &&& plan.global_options == global_db_options_override
                &&& plan_covers(plan, *schema, supplied(tables_db_options_override))
            },
            Err(e) => first_unresolved_from(
                schema.tables@,
                supplied(tables_db_options_override),
                0,
            ) == Some(e@),
        },
{
    open_tables_impl(schema, path, None, global_db_options_override, tables_db_options_override)
}

/// Plans the opening of a table set as a secondary of the primary at
/// `primary_path`. Each table is opened with what its own function returns,
/// so the plan never fails.
pub fn open_tables_read_only<'a, P, O>(
    schema: &Schema,
    primary_path: P,
    secondary_path: P,
    global_db_options_override: Option<O>,
) -> (r: OpenPlan<'a, P, O>)
    ensures
        r.mode == OpenMode::Secondary(primary_path, secondary_path),
        r.global_options == global_db_options_override,
        plan_covers(r, *schema, None),
{
    let ghost none: Option<Map<Seq<char>, O>> = None;
    proof {
        crate::options::lemma_unresolved(schema.tables@, none, 0);
    }
    let overrides: Option<&'a TableConfigMap<O>> = None;
    let column_families = match plan_column_families(schema, overrides) {
        Ok(column_families) => column_families,
        Err(_) => Vec::new(),
    };
    OpenPlan {
        mode: OpenMode::Secondary(primary_path, secondary_path),
        global_options: global_db_options_override,
        column_families,
    }
}

/// What the opener asks of the engine.
#[derive(Debug, Clone, Copy, PartialEq, Eq, Structural)]
pub enum OpenStep {
    /// Open the engine as the plan says.
    OpenEngine,
    /// Bind the table at this position to its column family.
    BindTable(usize),
    /// Nothing more: every table is bound.
    Done,
}

/// What the engine answers to a step.
#[derive(Debug, PartialEq, Eq)]
pub enum EngineReply<E> {
    /// The engine is open.
    Opened,
    /// The engine could not be opened.
    OpenFailed(E),
    /// The table is bound to its column family.
    Bound,
    /// The open engine has no column family for the table.
    Missing,
}

/// Why a table set could not be opened.
#[derive(Debug, PartialEq, Eq)]
pub enum EngineError<E> {
    /// The engine's own failure to open.
    CannotOpen(E),
    /// The engine is open but lacks the column family of the table of this
    /// name: schema and store disagree.
    MissingColumnFamily(String),
    /// The reply answers no step that was asked.
    OutOfTurn,
}

/// An `EngineError` with its table name as a sequence of characters.
pub enum EngineFault<E> {
    CannotOpen(E),
    MissingColumnFamily(Seq<char>),
    OutOfTurn,
}

impl<E> View for EngineError<E> {
    type V = EngineFault<E>;

    open spec fn view(&self) -> EngineFault<E> {
        match self {
            EngineError::CannotOpen(e) => EngineFault::CannotOpen(*e),
            EngineError::MissingColumnFamily(n) => EngineFault::MissingColumnFamily(n@),
            EngineError::OutOfTurn => EngineFault::OutOfTurn,
        }
    }
}

/// The step that binds the table at `i`, or `Done` where there is none.
pub open spec fn bind_or_done(schema: Schema, i: int) -> OpenStep {
    if i < schema.tables@.len() {
        OpenStep::BindTable(i as usize)
    } else {
        OpenStep::Done
    }
}

/// What follows the engine's reply to the step `asked`: once the engine is
/// open the tables are bound one by one, in declaration order; a failure to
/// open and a missing column family end the opening.
pub open spec fn step_after<E>(schema: Schema, asked: OpenStep, reply: EngineReply<E>) -> Result<
    OpenStep,
    EngineFault<E>,
> {
    match (asked, reply) {
        (OpenStep::OpenEngine, EngineReply::Opened) => Ok(bind_or_done(schema, 0)),
        (OpenStep::OpenEngine, EngineReply::OpenFailed(e)) => Err(EngineFault::CannotOpen(e)),
        (OpenStep::BindTable(i), EngineReply::Bound) => if i < schema.tables@.len() {
            Ok(bind_or_done(schema, i + 1))
        } else {
            Err(EngineFault::OutOfTurn)
        },
        (OpenStep::BindTable(i), EngineReply::Missing) => if i < schema.tables@.len() {
            Err(EngineFault::MissingColumnFamily(schema.tables@[i as int].name@))
        } else {
            Err(EngineFault::OutOfTurn)
        },
        _ => Err(EngineFault::OutOfTurn),
    }
}

/// Decides what to ask of the engine after its reply to `asked`.
pub fn next_open_step<E>(schema: &Schema, asked: OpenStep, reply: EngineReply<E>) -> (r: Result<
    OpenStep,
    EngineError<E>,
>)
    ensures
        match r {
            Ok(step) => step_after(*schema, asked, reply) == Ok::<OpenStep, EngineFault<E>>(step),
            Err(e) => step_after(*schema, asked, reply) == Err::<OpenStep, EngineFault<E>>(e@),
        },
{
    let n = schema.tables.len();
    match asked {
        OpenStep::OpenEngine => match reply {
            EngineReply::Opened => if 0 < n {
                Ok(OpenStep::BindTable(0))
            } else {
                Ok(OpenStep::Done)
            },
            EngineReply::OpenFailed(e) => Err(EngineError::CannotOpen(e)),
            _ => Err(EngineError::OutOfTurn),
        },
        OpenStep::BindTable(i) => {
            if i >= n {
                return Err(EngineError::OutOfTurn);
            }
            match reply {
                EngineReply::Bound => if i + 1 < n {
                    Ok(OpenStep::BindTable(i + 1))
                } else {
                    Ok(OpenStep::Done)
                },
                EngineReply::Missing => Err(
                    EngineError::MissingColumnFamily(schema.tables[i].name.clone()),
                ),
                _ => Err(EngineError::OutOfTurn),
            }
        },
        OpenStep::Done => Err(EngineError::OutOfTurn),
    }
}

/// The path that a reader writes its own state to.
#[derive(Debug, PartialEq, Eq)]
pub enum SecondaryPath<P> {
    /// The path that the caller gave.
    Given(P),
    /// A fresh scratch location, to be kept as long as the handle.
    Scratch,
}

/// Where a reader keeps its own state: at the caller's path where one is
/// given, else at a scratch location that has yet to be made.
pub fn choose_secondary_path<P>(with_secondary_path: Option<P>) -> (r: SecondaryPath<P>)
    ensures
        r == match with_secondary_path {
            Some(p) => SecondaryPath::Given(p),
            None => SecondaryPath::Scratch,
        },
{
    match with_secondary_path {
        Some(p) => SecondaryPath::Given(p),
        None => SecondaryPath::Scratch,
    }
}

} // verus!
