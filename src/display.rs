use vstd::prelude::*;
use vstd::string::to_string_from_display_ensures;

use crate::level::Level;
use crate::record::{appends_one, compose, is_record, lemma_record_has_prefix, Record};

verus! {

/// `rec` is the record emitted at `level` after `prefix` for `x`: its message
/// is `prefix` followed by a string that `x.to_string()` may return.
pub open spec fn is_display_record<T: core::fmt::Display>(rec: Record, level: Level, prefix: Seq<char>, x: &T) -> bool {
    exists|s: String| #[trigger] to_string_from_display_ensures::<T>(x, s) && is_record(rec, level, prefix, s@)
}

/// Renders `x` with its `Display` impl and appends the record that a logger
/// with `level` and `prefix` emits for it.
fn emit_display<T: core::fmt::Display>(level: Level, prefix: &String, x: &T, out: &mut Vec<Record>)
    ensures
        appends_one(old(out)@, final(out)@, level, prefix@),
        is_display_record(final(out)@.last(), level, prefix@, x),
{
    let rendered = x.to_string();
    let rec = compose(level, prefix, rendered.as_str());
    proof {
        lemma_record_has_prefix(rec, level, prefix@, rendered@);
    }
    out.push(rec);
    assert(out@.drop_last() =~= old(out)@);
    assert(is_record(out@.last(), level, prefix@, rendered@));
}

/// Logs each value it processes with its `Display` rendering, at a fixed level
/// and after a fixed prefix, and returns the value unchanged.
#[derive(Clone, Debug, PartialEq, Eq)]
pub struct LogDisplayService {
    level: Level,
    prefix: String,
}

impl View for LogDisplayService {
    /// The configured level and prefix.
    type V = (Level, Seq<char>);

    closed spec fn view(&self) -> (Level, Seq<char>) {
        (self.level, self.prefix@)
    }
}

impl LogDisplayService {
    /// A logger at `level` whose records start with `prefix`.
    pub fn new(level: Level, prefix: &str) -> (r: Self)
        ensures
            r@ == (level, prefix@),
    {
        LogDisplayService { level, prefix: prefix.to_owned() }
    }

    /// The same as `new(Level::Debug, prefix)`.
    pub fn debug(prefix: &str) -> (r: Self)
        ensures
            r@ == (Level::Debug, prefix@),
    {
        Self::new(Level::Debug, prefix)
    }

    /// The same as `new(Level::Error, prefix)`.
    pub fn error(prefix: &str) -> (r: Self)
        ensures
            r@ == (Level::Error, prefix@),
    {
        Self::new(Level::Error, prefix)
    }

    /// The same as `new(Level::Info, prefix)`.
    pub fn info(prefix: &str) -> (r: Self)
        ensures
            r@ == (Level::Info, prefix@),
    {
        Self::new(Level::Info, prefix)
    }

    /// The same as `new(Level::Trace, prefix)`.
    pub fn trace(prefix: &str) -> (r: Self)
        ensures
            r@ == (Level::Trace, prefix@),
    {
        Self::new(Level::Trace, prefix)
    }

    /// The same as `new(Level::Warn, prefix)`.
    pub fn warn(prefix: &str) -> (r: Self)
        ensures
            r@ == (Level::Warn, prefix@),
    {
        Self::new(Level::Warn, prefix)
    }

    /// The record this logger emits for a value whose rendering is `rendered`.
    pub fn record(&self, rendered: &str) -> (r: Record)
        ensures
            is_record(r, self@.0, self@.1, rendered@),
    {
        compose(self.level, &self.prefix, rendered)
    }

    /// Appends one record for `input` to `out` and returns `input` unchanged.
    pub fn process<T: core::fmt::Display>(&self, input: T, out: &mut Vec<Record>) -> (r: Result<T, ()>)
        ensures
            r == Ok::<T, ()>(input),
            appends_one(old(out)@, final(out)@, self@.0, self@.1),
            is_display_record(final(out)@.last(), self@.0, self@.1, &input),
    {
        emit_display(self.level, &self.prefix, &input, out);
        Ok(input)
    }
}

/// Logs the `Display` rendering of each present value it processes, at a fixed
/// level and after a fixed prefix; absent values pass without a record.
/// Values are returned unchanged.
#[derive(Clone, Debug, PartialEq, Eq)]
pub struct LogOptionalDisplayService {
    level: Level,
    prefix: String,
}

impl View for LogOptionalDisplayService {
    /// The configured level and prefix.
    type V = (Level, Seq<char>);

    closed spec fn view(&self) -> (Level, Seq<char>) {
        (self.level, self.prefix@)
    }
}

impl LogOptionalDisplayService {
    /// A logger at `level` whose records start with `prefix`.
    pub fn new(level: Level, prefix: &str) -> (r: Self)
        ensures
            r@ == (level, prefix@),
    {
        LogOptionalDisplayService { level, prefix: prefix.to_owned() }
    }

    /// The same as `new(Level::Debug, prefix)`.
    pub fn debug(prefix: &str) -> (r: Self)
        ensures
            r@ == (Level::Debug, prefix@),
    {
        Self::new(Level::Debug, prefix)
    }

    /// The same as `new(Level::Error, prefix)`.
    pub fn error(prefix: &str) -> (r: Self)
        ensures
            r@ == (Level::Error, prefix@),
    {
        Self::new(Level::Error, prefix)
    }

    /// The same as `new(Level::Info, prefix)`.
    pub fn info(prefix: &str) -> (r: Self)
        ensures
            r@ == (Level::Info, prefix@),
    {
        Self::new(Level::Info, prefix)
    }

    /// The same as `new(Level::Trace, prefix)`.
    pub fn trace(prefix: &str) -> (r: Self)
        ensures
            r@ == (Level::Trace, prefix@),
    {
        Self::new(Level::Trace, prefix)
    }

    /// The same as `new(Level::Warn, prefix)`.
    pub fn warn(prefix: &str) -> (r: Self)
        ensures
            r@ == (Level::Warn, prefix@),
    {
        Self::new(Level::Warn, prefix)
    }

    /// The record this logger emits for a present value whose rendering is
    /// `rendered`.
    pub fn record(&self, rendered: &str) -> (r: Record)
        ensures
            is_record(r, self@.0, self@.1, rendered@),
    {
        compose(self.level, &self.prefix, rendered)
    }

    /// Appends one record to `out` when `input` is present and none when it
    /// is absent, and returns `input` unchanged.
    pub fn process<T: core::fmt::Display>(&self, input: Option<T>, out: &mut Vec<Record>) -> (r: Result<Option<T>, ()>)
        ensures
            r == Ok::<Option<T>, ()>(input),
            input is None ==> final(out)@ == old(out)@,
            input is Some ==> appends_one(old(out)@, final(out)@, self@.0, self@.1),
            input is Some ==> is_display_record(final(out)@.last(), self@.0, self@.1, &input->Some_0),
    {
        match &input {
            Some(x) => emit_display(self.level, &self.prefix, x, out),
            None => {},
        }
        Ok(input)
    }
}

} // verus!
