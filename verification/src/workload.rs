//! The four fixed workloads: the statement each one runs, the label it is
//! reported under, and the rule by which each of its parameters is drawn.

use crate::text::{join_words, joined};
use fake::faker::lorem::en::Words;
use fake::faker::name::zh_cn::Name;
use fake::faker::phone_number::en::PhoneNumber;
use fake::Fake;
use vstd::prelude::*;

verus! {

/// Lower bound of the `uid` column's values.
pub const UID_LOW: u32 = 1_000_000_000;

/// Upper bound (exclusive) of the `uid` column's values.
pub const UID_HIGH: u32 = 4_000_000_000;

/// Lower bound of the row ids that update, select and delete aim at.
pub const ROW_ID_LOW: i16 = 1;

/// Upper bound (exclusive) of the row ids that update, select and delete aim at.
pub const ROW_ID_HIGH: i16 = 10_000;

/// Word count of an inserted description: at least this many.
pub const DESCRIPTION_MIN_WORDS: usize = 100;

/// Word count of an inserted description: fewer than this many.
pub const DESCRIPTION_MAX_WORDS: usize = 300;

/// Word count of an updated description: at least this many.
pub const REVISION_MIN_WORDS: usize = 300;

/// Word count of an updated description: fewer than this many.
pub const REVISION_MAX_WORDS: usize = 400;

/// The statement that creates the table the workloads run against, unless
/// it is there already: `id` is the key that the store assigns, and the four
/// other columns take the parameters of the insert workload.
pub open spec fn schema_text() -> Seq<char> {
    "CREATE TABLE IF NOT EXISTS test (id INTEGER PRIMARY KEY, name TEXT NOT NULL, phone TEXT, uid INTEGER, description TEXT)"@
}

/// The statement that creates the table.
pub fn schema_statement() -> (sql: &'static str)
    ensures
        sql@ == schema_text(),
{
    "CREATE TABLE IF NOT EXISTS test (id INTEGER PRIMARY KEY, name TEXT NOT NULL, phone TEXT, uid INTEGER, description TEXT)"
}

/// One of the four statements whose latency is measured.
#[derive(Clone, Copy, Debug, PartialEq, Eq, Structural)]
pub enum Workload {
    Insert,
    Update,
    Select,
    Delete,
}

/// How one positional parameter of a statement is drawn.
#[derive(Clone, Copy, Debug, PartialEq, Eq, Structural)]
pub enum ParamRule {
    /// A person's full name.
    FullName,
    /// A phone number.
    PhoneNumber,
    /// An integer in `UID_LOW..UID_HIGH`.
    Uid,
    /// `DESCRIPTION_MIN_WORDS..DESCRIPTION_MAX_WORDS` words, joined by spaces.
    Description,
    /// `REVISION_MIN_WORDS..REVISION_MAX_WORDS` words, joined by spaces.
    Revision,
    /// An integer in `ROW_ID_LOW..ROW_ID_HIGH`.
    RowId,
}

/// A value bound to one positional parameter.
#[derive(Debug)]
pub enum ParamValue {
    Text(String),
    Integer(i64),
}

/// `text` is made of at least `min` and fewer than `max` words with single
/// spaces between them.
pub open spec fn is_words(text: Seq<char>, min: int, max: int) -> bool {
    exists|words: Seq<Seq<char>>| min <= words.len() < max && text == #[trigger] joined(words)
}

impl ParamRule {
    /// Whether `value` is one that this rule may draw.
    pub open spec fn admits(self, value: ParamValue) -> bool {
        match self {
            ParamRule::FullName => value is Text,
            ParamRule::PhoneNumber => value is Text,
            ParamRule::Uid => value matches ParamValue::Integer(v) && UID_LOW <= v < UID_HIGH,
            ParamRule::Description => value matches ParamValue::Text(t) && is_words(
                t@,
                DESCRIPTION_MIN_WORDS as int,
                DESCRIPTION_MAX_WORDS as int,
            ),
            ParamRule::Revision => value matches ParamValue::Text(t) && is_words(
                t@,
                REVISION_MIN_WORDS as int,
                REVISION_MAX_WORDS as int,
            ),
            ParamRule::RowId => value matches ParamValue::Integer(v) && ROW_ID_LOW <= v
                < ROW_ID_HIGH,
        }
    }

    /// Draws a fresh value under this rule.
    pub fn draw(&self) -> (value: ParamValue)
        ensures
            self.admits(value),
    {
        match self {
            ParamRule::FullName => ParamValue::Text(fake_full_name()),
            ParamRule::PhoneNumber => ParamValue::Text(fake_phone_number()),
            ParamRule::Uid => ParamValue::Integer(fake_u32(UID_LOW, UID_HIGH) as i64),
            ParamRule::Description => ParamValue::Text(
                draw_words(DESCRIPTION_MIN_WORDS, DESCRIPTION_MAX_WORDS),
            ),
            ParamRule::Revision => ParamValue::Text(
                draw_words(REVISION_MIN_WORDS, REVISION_MAX_WORDS),
            ),
            ParamRule::RowId => ParamValue::Integer(fake_i16(ROW_ID_LOW, ROW_ID_HIGH) as i64),
        }
    }
}

/// Whether `values` holds one value for each rule of `rules`, in order, each
/// admitted by its rule.
pub open spec fn admits_all(rules: Seq<ParamRule>, values: Seq<ParamValue>) -> bool {
    &&& values.len() == rules.len()
    &&& forall|i: int| 0 <= i < rules.len() ==> (#[trigger] rules[i]).admits(values[i])
}

impl Workload {
    /// The name under which the workload's statistics are reported.
    pub open spec fn label_text(self) -> Seq<char> {
        match self {
            Workload::Insert => "INSERT"@,
            Workload::Update => "UPDATE"@,
            Workload::Select => "SELECT"@,
            Workload::Delete => "DELETE"@,
        }
    }

    /// The statement, with its parameters numbered from one.
    pub open spec fn statement_text(self) -> Seq<char> {
        match self {
            Workload::Insert => "INSERT INTO test (name,phone,uid,description) VALUES (?1,?2,?3,?4)"@,
            Workload::Update => "UPDATE test SET description = ?1 WHERE id = ?2"@,
            Workload::Select => "SELECT * FROM test WHERE id = ?1"@,
            Workload::Delete => "DELETE FROM test WHERE id = ?1"@,
        }
    }

    /// The rules of the statement's parameters, in the order of their numbers.
    pub open spec fn param_rules(self) -> Seq<ParamRule> {
        match self {
            Workload::Insert => seq![
                ParamRule::FullName,
                ParamRule::PhoneNumber,
                ParamRule::Uid,
                ParamRule::Description,
            ],
            Workload::Update => seq![ParamRule::Revision, ParamRule::RowId],
            Workload::Select => seq![ParamRule::RowId],
            Workload::Delete => seq![ParamRule::RowId],
        }
    }

    /// The name under which the workload's statistics are reported.
    pub fn label(&self) -> (label: &'static str)
        ensures
            label@ == self.label_text(),
    {
        match self {
            Workload::Insert => "INSERT",
            Workload::Update => "UPDATE",
            Workload::Select => "SELECT",
            Workload::Delete => "DELETE",
        }
    }

    /// The statement that a trial of the workload prepares and executes.
    pub fn statement(&self) -> (sql: &'static str)
        ensures
            sql@ == self.statement_text(),
    {
        match self {
            Workload::Insert => "INSERT INTO test (name,phone,uid,description) VALUES (?1,?2,?3,?4)",
            Workload::Update => "UPDATE test SET description = ?1 WHERE id = ?2",
            Workload::Select => "SELECT * FROM test WHERE id = ?1",
            Workload::Delete => "DELETE FROM test WHERE id = ?1",
        }
    }

    /// The rules of the statement's parameters, in the order of their numbers.
    pub fn rules(&self) -> (rules: Vec<ParamRule>)
        ensures
            rules@ == self.param_rules(),
    {
        match self {
            Workload::Insert => vec![
                ParamRule::FullName,
                ParamRule::PhoneNumber,
                ParamRule::Uid,
                ParamRule::Description,
            ],
            Workload::Update => vec![ParamRule::Revision, ParamRule::RowId],
            Workload::Select => vec![ParamRule::RowId],
            Workload::Delete => vec![ParamRule::RowId],
        }
    }

    /// Draws fresh parameters for one trial: nothing is kept from earlier
    /// trials.
    pub fn draw_params(&self) -> (params: Vec<ParamValue>)
        ensures
            admits_all(self.param_rules(), params@),
    {
        let rules = self.rules();
        let mut params: Vec<ParamValue> = Vec::new();
        let mut i: usize = 0;
        while i < rules.len()
            invariant
                i <= rules.len(),
                rules@ == self.param_rules(),
                admits_all(rules@.take(i as int), params@),
            decreases rules.len() - i,
        {
            let value = rules[i].draw();
            params.push(value);
            i += 1;
        }
        assert(rules@.take(i as int) == rules@);
        params
    }
}

/// Draws at least `min` and fewer than `max` words and joins them.
fn draw_words(min: usize, max: usize) -> (text: String)
    requires
        min < max,
    ensures
        is_words(text@, min as int, max as int),
{
    let words = fake_words(min, max);
    let text = join_words(&words);
    assert(text@ == joined(words.deep_view()));
    text
}

/// `fake`'s `Name` faker in its `zh_cn` locale, asked for a `String`: a family
/// name and a given name picked at random. Nothing is claimed of the text.
#[verifier::external_body]
fn fake_full_name() -> String {
    Name().fake()
}

/// `fake`'s `PhoneNumber` faker in its `en` locale, asked for a `String`: a
/// format picked at random with its digits filled in at random. Nothing is
/// claimed of the text.
#[verifier::external_body]
fn fake_phone_number() -> String {
    PhoneNumber().fake()
}

/// `fake`'s `Words` faker in its `en` locale, asked for a `Vec<String>`. It
/// draws a length from `min..max` and pushes that many words, so the claim is
/// on the length alone. An empty range makes it panic.
#[verifier::external_body]
fn fake_words(min: usize, max: usize) -> (words: Vec<String>)
    requires
        min < max,
    ensures
        min <= words@.len() < max,
{
    Words(min..max).fake()
}

/// `fake`'s `Dummy<Range<u32>>` for `u32`, which hands the range to the random
/// number generator: the value lies in `low..high`. An empty range makes it
/// panic.
#[verifier::external_body]
fn fake_u32(low: u32, high: u32) -> (value: u32)
    requires
        low < high,
    ensures
        low <= value < high,
{
    (low..high).fake()
}

/// `fake`'s `Dummy<Range<i16>>` for `i16`, which hands the range to the random
/// number generator: the value lies in `low..high`. An empty range makes it
/// panic.
#[verifier::external_body]
fn fake_i16(low: i16, high: i16) -> (value: i16)
    requires
        low < high,
    ensures
        low <= value < high,
{
    (low..high).fake()
}

} // verus!
