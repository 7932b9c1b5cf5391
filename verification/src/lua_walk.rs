//! The bookkeeping of a walk through nested script tables: which tables are open on the
//! current path, and which values the walk skips or refuses.
use rustc_hash::FxHashSet;
use vstd::prelude::*;

verus! {

/// The hasher behind `FxHashSet`.
#[verifier::external_type_specification]
#[verifier::external_body]
pub struct ExFxBuildHasher(rustc_hash::FxBuildHasher);

/// `HashSet::insert` on an `FxHashSet`: the set gains `table`, and the result says whether
/// it was missing before. `FxBuildHasher` builds the same deterministic `FxHasher` every
/// time, so the set behaves as a set of its keys.
#[verifier::external_body]
fn fx_set_insert(set: &mut FxHashSet<u64>, table: u64) -> (added: bool)
    ensures
        final(set)@ == old(set)@.insert(table),
        added == !old(set)@.contains(table),
{
    set.insert(table)
}

/// `HashSet::remove` on an `FxHashSet`: the set loses `table`, and the result says whether
/// it was there.
#[verifier::external_body]
fn fx_set_remove(set: &mut FxHashSet<u64>, table: u64) -> (removed: bool)
    ensures
        final(set)@ == old(set)@.remove(table),
        removed == old(set)@.contains(table),
{
    set.remove(&table)
}

/// `HashSet::contains` on an `FxHashSet`.
#[verifier::external_body]
fn fx_set_contains(set: &FxHashSet<u64>, table: u64) -> (found: bool)
    ensures
        found == set@.contains(table),
{
    set.contains(&table)
}

/// The tables that are open on the path from the root of the walk to the current value,
/// each by the address of its table.
pub struct VisitedTables {
    set: FxHashSet<u64>,
}

impl View for VisitedTables {
    type V = Set<u64>;

    closed spec fn view(&self) -> Set<u64> {
        self.set@
    }
}

/// What kind of script value the walk meets. A table carries its address.
#[derive(Debug, Clone, Copy, PartialEq, Eq, Structural)]
pub enum LuaValueKind {
    Table(u64),
    Thread,
    LightUserData,
    Error,
    Other,
}

/// The options of a walk that decide what it skips.
#[derive(Debug, Clone, Copy, PartialEq, Eq, Structural)]
pub struct WalkOptions {
    pub deny_unsupported_types: bool,
    pub deny_recursive_tables: bool,
}

/// Why the walk refuses a value.
#[derive(Debug, Clone, Copy, PartialEq, Eq, Structural)]
pub enum WalkError {
    RecursiveTable,
}

impl WalkError {
    /// The message of the error.
    pub fn message(&self) -> (s: &'static str)
        ensures
            *self == WalkError::RecursiveTable ==> s@ == "recursive table detected"@,
    {
        match self {
            WalkError::RecursiveTable => "recursive table detected",
        }
    }
}

/// What the walk does with a value: `Err` when it refuses it, `Ok(true)` when it skips it,
/// `Ok(false)` when it reads it.
pub open spec fn skip_decision(value: LuaValueKind, options: WalkOptions, open_tables: Set<u64>) -> Result<
    bool,
    WalkError,
> {
    match value {
        LuaValueKind::Table(t) => if open_tables.contains(t) {
            if options.deny_recursive_tables {
                Err(WalkError::RecursiveTable)
            } else {
                Ok(true)
            }
        } else {
            Ok(false)
        },
        LuaValueKind::Thread | LuaValueKind::LightUserData | LuaValueKind::Error => Ok(
            !options.deny_unsupported_types,
        ),
        LuaValueKind::Other => Ok(false),
    }
}

impl VisitedTables {
    /// No table open.
    pub fn new() -> (v: Self)
        ensures
            v@ == Set::<u64>::empty(),
    {
        VisitedTables { set: FxHashSet::default() }
    }

    /// Whether `table` is open on the current path.
    pub fn contains(&self, table: u64) -> (found: bool)
        ensures
            found == self@.contains(table),
    {
        fx_set_contains(&self.set, table)
    }

    /// The walk descends into `table`: it is open from now on.
    pub fn enter(&mut self, table: u64) -> (added: bool)
        ensures
            final(self)@ == old(self)@.insert(table),
            added == !old(self)@.contains(table),
    {
        fx_set_insert(&mut self.set, table)
    }

    /// The walk is done with `table`: it is no longer open.
    pub fn leave(&mut self, table: u64)
        ensures
            final(self)@ == old(self)@.remove(table),
    {
        fx_set_remove(&mut self.set, table);
    }
}

/// Whether the walk refuses, skips or reads `value`, given the tables open on the path.
pub fn check_value_for_skip(value: LuaValueKind, options: WalkOptions, visited: &VisitedTables) -> (r:
    Result<bool, WalkError>)
    ensures
        r == skip_decision(value, options, visited@),
{
    match value {
        LuaValueKind::Table(t) => {
            if visited.contains(t) {
                if options.deny_recursive_tables {
                    return Err(WalkError::RecursiveTable);
                }
                return Ok(true);
            }
            Ok(false)
        },
        LuaValueKind::Thread | LuaValueKind::LightUserData | LuaValueKind::Error => {
            if !options.deny_unsupported_types {
                return Ok(true);
            }
            Ok(false)
        },
        LuaValueKind::Other => Ok(false),
    }
}

/// Whether the walk refuses a map entry (`Err`), skips it (`Ok(true)`) or reads it: the
/// key is checked first, and an entry is skipped when its key or its value is.
pub open spec fn entry_decision(key: LuaValueKind, value: LuaValueKind, options: WalkOptions, open_tables: Set<u64>) -> Result<
    bool,
    WalkError,
> {
    match skip_decision(key, options, open_tables) {
        Err(e) => Err(e),
        Ok(skip_key) => match skip_decision(value, options, open_tables) {
            Err(e) => Err(e),
            Ok(skip_value) => Ok(skip_key || skip_value),
        },
    }
}

/// What the walk does with one entry of a table it reads as a map.
pub fn check_entry_for_skip(
    key: LuaValueKind,
    value: LuaValueKind,
    options: WalkOptions,
    visited: &VisitedTables,
) -> (r: Result<bool, WalkError>)
    ensures
        r == entry_decision(key, value, options, visited@),
{
    let skip_key = match check_value_for_skip(key, options, visited) {
        Ok(b) => b,
        Err(e) => return Err(e),
    };
    let skip_value = match check_value_for_skip(value, options, visited) {
        Ok(b) => b,
        Err(e) => return Err(e),
    };
    Ok(skip_key || skip_value)
}

/// A script value as the generic entry point of the deserializer sees it.
#[derive(Debug, Clone, Copy, PartialEq, Eq, Structural)]
pub enum AnyValue {
    Nil,
    Boolean,
    Integer,
    Number,
    /// A string, and whether it is valid UTF-8.
    String { utf8: bool },
    /// A table, and the length of its array part.
    Table { raw_len: u64 },
    /// A light user data, and whether it is the null pointer.
    LightUserData { null: bool },
    Function,
    /// A user data, and whether it is a reactive string.
    UserData { reactive: bool },
    Other,
}

/// How the generic entry point hands a value to the visitor.
#[derive(Debug, Clone, Copy, PartialEq, Eq, Structural)]
pub enum AnyRoute {
    Unit,
    Bool,
    Integer,
    Float,
    Str,
    Bytes,
    Sequence,
    Table,
    Absent,
    /// Register the function and hand over its payload.
    FunctionPayload,
    /// Hand over the payload of the reactive string.
    ReactivePayload,
    /// Leave the value to the stock deserializer.
    Stock,
}

/// The route of each kind of value: a table with an array part is read as a sequence and
/// any other table as a map; the null light user data is an absent value; a string that is not
/// UTF-8 goes as bytes; a user data that is not a reactive string is read as unit.
pub open spec fn any_route_of(v: AnyValue) -> AnyRoute {
    match v {
        AnyValue::Nil => AnyRoute::Unit,
        AnyValue::Boolean => AnyRoute::Bool,
        AnyValue::Integer => AnyRoute::Integer,
        AnyValue::Number => AnyRoute::Float,
        AnyValue::String { utf8 } => if utf8 { AnyRoute::Str } else { AnyRoute::Bytes },
        AnyValue::Table { raw_len } => if raw_len > 0 { AnyRoute::Sequence } else { AnyRoute::Table },
        AnyValue::LightUserData { null } => if null { AnyRoute::Absent } else { AnyRoute::Stock },
        AnyValue::Function => AnyRoute::FunctionPayload,
        AnyValue::UserData { reactive } => if reactive {
            AnyRoute::ReactivePayload
        } else {
            AnyRoute::Unit
        },
        AnyValue::Other => AnyRoute::Stock,
    }
}

/// How the generic entry point of the deserializer hands `v` to the visitor.
pub fn any_route(v: AnyValue) -> (r: AnyRoute)
    ensures
        r == any_route_of(v),
{
    match v {
        AnyValue::Nil => AnyRoute::Unit,
        AnyValue::Boolean => AnyRoute::Bool,
        AnyValue::Integer => AnyRoute::Integer,
        AnyValue::Number => AnyRoute::Float,
        AnyValue::String { utf8 } => if utf8 {
            AnyRoute::Str
        } else {
            AnyRoute::Bytes
        },
        AnyValue::Table { raw_len } => if raw_len > 0 {
            AnyRoute::Sequence
        } else {
            AnyRoute::Table
        },
        AnyValue::LightUserData { null } => if null {
            AnyRoute::Absent
        } else {
            AnyRoute::Stock
        },
        AnyValue::Function => AnyRoute::FunctionPayload,
        AnyValue::UserData { reactive } => if reactive {
            AnyRoute::ReactivePayload
        } else {
            AnyRoute::Unit
        },
        AnyValue::Other => AnyRoute::Stock,
    }
}

/// Whether a unit (or unit struct) is read directly from `v`: only from the null light
/// user data; any other value goes through the generic entry point.
pub fn unit_is_direct(v: AnyValue) -> (direct: bool)
    ensures
        direct == (v == AnyValue::LightUserData { null: true }),
{
    match v {
        AnyValue::LightUserData { null } => null,
        _ => false,
    }
}

/// A table was read in full when no item is left over; otherwise the error reports
/// `expected` items.
pub fn check_all_read(left_over: usize, expected: usize) -> (r: Result<(), usize>)
    ensures
        left_over == 0 ==> r is Ok,
        left_over != 0 ==> r == Err::<(), usize>(expected),
{
    if left_over == 0 {
        Ok(())
    } else {
        Err(expected)
    }
}

/// The length of a table read as a map, for the error when items are left over: those
/// read and those left over.
pub fn map_length_read(processed: usize, left_over: usize) -> (n: Option<usize>)
    ensures
        processed + left_over <= usize::MAX ==> n == Some((processed + left_over) as usize),
        processed + left_over > usize::MAX ==> n is None,
{
    processed.checked_add(left_over)
}

/// An exact size when both bounds of an iterator's size hint agree.
pub fn exact_size_hint(lower: usize, upper: Option<usize>) -> (n: Option<usize>)
    ensures
        n == (match upper {
            Some(u) => if u == lower { Some(u) } else { None },
            None => None,
        }),
{
    match upper {
        Some(u) => if u == lower {
            Some(u)
        } else {
            None
        },
        None => None,
    }
}

/// Leaving a table that the walk entered while it was not open gives back the tables that
/// were open before.
pub proof fn law_leave_undoes_enter(open_tables: Set<u64>, table: u64)
    requires
        !open_tables.contains(table),
    ensures
        open_tables.insert(table).remove(table) == open_tables,
{
    assert(open_tables.insert(table).remove(table) =~= open_tables);
}

/// A table that is not open on the path is always read, never skipped or refused.
pub proof fn law_fresh_table_is_read(table: u64, options: WalkOptions, open_tables: Set<u64>)
    requires
        !open_tables.contains(table),
    ensures
        skip_decision(LuaValueKind::Table(table), options, open_tables) == Ok::<bool, WalkError>(
            false,
        ),
{
}

/// A table met again while it is open is refused or skipped, never read a second time.
pub proof fn law_open_table_never_read(table: u64, options: WalkOptions, open_tables: Set<u64>)
    ensures
        skip_decision(LuaValueKind::Table(table), options, open_tables.insert(table)) != Ok::<
            bool,
            WalkError,
        >(false),
{
    assert(open_tables.insert(table).contains(table));
}

/// Every table with a non-empty array part is read as a sequence, and only a table whose
/// array part is empty as a map; each other kind of value goes its own way.
pub proof fn law_any_routes(raw_len: u64, utf8: bool, null: bool, reactive: bool)
    ensures
        raw_len >= 1 ==> any_route_of(AnyValue::Table { raw_len }) == AnyRoute::Sequence,
        any_route_of(AnyValue::Table { raw_len: 0 }) == AnyRoute::Table,
        any_route_of(AnyValue::Table { raw_len }) == AnyRoute::Table ==> raw_len == 0,
        any_route_of(AnyValue::Nil) == AnyRoute::Unit,
        any_route_of(AnyValue::Boolean) == AnyRoute::Bool,
        any_route_of(AnyValue::Integer) == AnyRoute::Integer,
        any_route_of(AnyValue::Number) == AnyRoute::Float,
        any_route_of(AnyValue::String { utf8: true }) == AnyRoute::Str,
        any_route_of(AnyValue::String { utf8: false }) == AnyRoute::Bytes,
        any_route_of(AnyValue::LightUserData { null: true }) == AnyRoute::Absent,
        any_route_of(AnyValue::LightUserData { null: false }) == AnyRoute::Stock,
        any_route_of(AnyValue::Function) == AnyRoute::FunctionPayload,
        any_route_of(AnyValue::UserData { reactive: true }) == AnyRoute::ReactivePayload,
        any_route_of(AnyValue::UserData { reactive: false }) == AnyRoute::Unit,
        any_route_of(AnyValue::Other) == AnyRoute::Stock,
{
}

/// A value is skipped or refused only as the options say: a table that is not open is
/// always read; an open table is refused exactly when recursive tables are denied and
/// skipped otherwise; a thread, light user data or error is skipped exactly when
/// unsupported types are allowed; anything else is read.
pub proof fn law_skip_rules(table: u64, options: WalkOptions, open_tables: Set<u64>)
    ensures
        !open_tables.contains(table) ==> skip_decision(LuaValueKind::Table(table), options, open_tables)
            == Ok::<bool, WalkError>(false),
        open_tables.contains(table) && options.deny_recursive_tables ==> skip_decision(
            LuaValueKind::Table(table),
            options,
            open_tables,
        ) == Err::<bool, WalkError>(WalkError::RecursiveTable),
        open_tables.contains(table) && !options.deny_recursive_tables ==> skip_decision(
            LuaValueKind::Table(table),
            options,
            open_tables,
        ) == Ok::<bool, WalkError>(true),
        skip_decision(LuaValueKind::Thread, options, open_tables) == Ok::<bool, WalkError>(
            !options.deny_unsupported_types,
        ),
        skip_decision(LuaValueKind::LightUserData, options, open_tables) == Ok::<bool, WalkError>(
            !options.deny_unsupported_types,
        ),
        skip_decision(LuaValueKind::Error, options, open_tables) == Ok::<bool, WalkError>(
            !options.deny_unsupported_types,
        ),
        skip_decision(LuaValueKind::Other, options, open_tables) == Ok::<bool, WalkError>(false),
{
}

/// A map entry is refused when its key or its value is refused (the key is looked at
/// first), skipped when either is skipped, and read only when both are read.
pub proof fn law_entry_rules(key: LuaValueKind, value: LuaValueKind, options: WalkOptions, open_tables: Set<u64>)
    ensures
        skip_decision(key, options, open_tables) is Err ==> entry_decision(key, value, options, open_tables)
            == skip_decision(key, options, open_tables),
        skip_decision(key, options, open_tables) is Ok && skip_decision(value, options, open_tables) is Err
            ==> entry_decision(key, value, options, open_tables) == skip_decision(value, options, open_tables),
        entry_decision(key, value, options, open_tables) == Ok::<bool, WalkError>(false) <==> (skip_decision(
            key,
            options,
            open_tables,
        ) == Ok::<bool, WalkError>(false) && skip_decision(value, options, open_tables) == Ok::<
            bool,
            WalkError,
        >(false)),
{
}

} // verus!

