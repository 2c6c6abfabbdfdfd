//! Argument tables of declare and bind calls.
//!
//! The table type is the AMQP client's own `FieldTable`. Verus cannot look
//! inside it: what a table holds is named by [`table_entries`], and the few
//! calls that the library makes on tables are trusted wrappers in this file.

use vstd::prelude::*;
use lapin::types::{AMQPValue, FieldTable};

verus! {

#[verifier::external_type_specification]
#[verifier::external_body]
pub struct ExFieldTable(FieldTable);

/// A value that the library itself puts into an argument table.
#[derive(Debug)]
pub enum ArgumentValue {
    /// A signed 64-bit integer.
    LongLongInt(i64),
    /// An unsigned 8-bit integer.
    ShortShortUInt(u8),
    /// A short string.
    ShortString(String),
}

/// Mathematical value of a table entry: one variant for each kind of value
/// that the protocol knows. Floating-point values stand by their bits, text
/// that need not be UTF-8 by its bytes.
pub enum ArgumentView {
    Boolean(bool),
    ShortShortInt(i8),
    ShortShortUInt(u8),
    ShortInt(i16),
    ShortUInt(u16),
    LongInt(i32),
    LongUInt(u32),
    LongLongInt(i64),
    Float(u32),
    Double(u64),
    DecimalValue(u8, u32),
    ShortString(Seq<char>),
    LongString(Seq<u8>),
    FieldArray(Seq<ArgumentView>),
    Timestamp(u64),
    FieldTable(Map<Seq<char>, ArgumentView>),
    ByteArray(Seq<u8>),
    Void,
}

impl View for ArgumentValue {
    type V = ArgumentView;

    open spec fn view(&self) -> ArgumentView {
        match self {
            ArgumentValue::LongLongInt(v) => ArgumentView::LongLongInt(*v),
            ArgumentValue::ShortShortUInt(v) => ArgumentView::ShortShortUInt(*v),
            ArgumentValue::ShortString(v) => ArgumentView::ShortString(v@),
        }
    }
}

/// Entries of an argument table, by key.
pub type Entries = Map<Seq<char>, ArgumentView>;

/// What a table holds: for each key, the value stored under it.
pub uninterp spec fn table_entries(table: FieldTable) -> Map<Seq<char>, ArgumentView>;

/// The `Debug` rendering of the table that holds `entries`.
pub uninterp spec fn entries_debug_text(entries: Map<Seq<char>, ArgumentView>) -> Seq<char>;

/// The table without entries.
pub open spec fn no_entries() -> Entries {
    Map::empty()
}

/// Calls `FieldTable::default`. Trusted: the new table is empty (the type
/// derives `Default` over a `BTreeMap`).
#[verifier::external_body]
pub(crate) fn table_new() -> (table: FieldTable)
    ensures
        table_entries(table) == no_entries(),
{
    FieldTable::default()
}

/// Calls `FieldTable::insert`, which inserts into the underlying `BTreeMap`.
/// Trusted: afterwards the table maps `key` to `value`, replacing what was
/// stored under that key, and every other entry is as before.
#[verifier::external_body]
pub(crate) fn table_insert(table: &mut FieldTable, key: &str, value: ArgumentValue)
    ensures
        table_entries(*final(table)) == table_entries(*old(table)).insert(key@, value@),
{
    let value = match value {
        ArgumentValue::LongLongInt(v) => AMQPValue::LongLongInt(v),
        ArgumentValue::ShortShortUInt(v) => AMQPValue::ShortShortUInt(v),
        ArgumentValue::ShortString(v) => AMQPValue::ShortString(v.into()),
    };
    table.insert(key.into(), value);
}

/// Calls `FieldTable::clone` (derived). Trusted: the copy is the same table.
#[verifier::external_body]
pub(crate) fn table_clone(table: &FieldTable) -> (copy: FieldTable)
    ensures
        copy == *table,
{
    table.clone()
}

/// Calls the derived `Debug` formatting of `FieldTable` (`format!("{:?}", ..)`).
/// Trusted: the result is that rendering, which depends on nothing but what
/// the table holds.
#[verifier::external_body]
pub(crate) fn table_debug(table: &FieldTable) -> (text: String)
    ensures
        text@ == entries_debug_text(table_entries(*table)),
{
    format!("{:?}", table)
}

} // verus!
