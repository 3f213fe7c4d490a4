use vstd::prelude::*;

use crate::level::Level;

verus! {

/// One emitted log record: its severity and its fully assembled message.
#[derive(Clone, Debug, PartialEq, Eq)]
pub struct Record {
    pub level: Level,
    pub message: String,
}

/// `rec` is the record emitted at `level` for a value rendered as `rendered`
/// by a logger whose prefix is `prefix`.
pub open spec fn is_record(rec: Record, level: Level, prefix: Seq<char>, rendered: Seq<char>) -> bool {
    rec.level == level && rec.message@ == prefix + rendered
}

/// `after` is `before` with exactly one record appended, at `level`, whose
/// message starts with `prefix` (the rest being the rendering of the value).
pub open spec fn appends_one(before: Seq<Record>, after: Seq<Record>, level: Level, prefix: Seq<char>) -> bool {
    &&& after.len() == before.len() + 1
    &&& after.drop_last() == before
    &&& after.last().level == level
    &&& prefix.is_prefix_of(after.last().message@)
}

/// Builds the record for a logger with `level` and `prefix` and a value
/// already rendered as `rendered`.
pub(crate) fn compose(level: Level, prefix: &String, rendered: &str) -> (r: Record)
    ensures
        is_record(r, level, prefix@, rendered@),
{
    let message = prefix.clone().concat(rendered);
    Record { level, message }
}

/// Relies on `format!("{:?}", x)`: the value's `Debug` rendering. What it
/// holds is up to the value type's own `Debug` impl, so nothing is promised.
#[verifier::external_body]
pub(crate) fn render_debug<T: core::fmt::Debug + ?Sized>(x: &T) -> (r: String) {
    format!("{:?}", x)
}

/// A record built by `compose` starts with the prefix, which is what
/// `appends_one` asks of the record.
pub(crate) proof fn lemma_record_has_prefix(rec: Record, level: Level, prefix: Seq<char>, rendered: Seq<char>)
    requires
        is_record(rec, level, prefix, rendered),
    ensures
        prefix.is_prefix_of(rec.message@),
{
    assert((prefix + rendered).subrange(0, prefix.len() as int) =~= prefix);
}

} // verus!
