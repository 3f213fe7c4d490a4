use vstd::prelude::*;

use crate::level::Level;
use crate::record::{appends_one, compose, is_record, lemma_record_has_prefix, render_debug, Record};

verus! {

/// Renders `x` with its `Debug` impl and appends the record that a logger
/// with `level` and `prefix` emits for it.
fn emit_debug<T: core::fmt::Debug>(level: Level, prefix: &String, x: &T, out: &mut Vec<Record>)
    ensures
        appends_one(old(out)@, final(out)@, level, prefix@),
{
    let rendered = render_debug(x);
    let rec = compose(level, prefix, rendered.as_str());
    proof {
        lemma_record_has_prefix(rec, level, prefix@, rendered@);
    }
    out.push(rec);
    assert(out@.drop_last() =~= old(out)@);
}

/// Logs each value it processes with its `Debug` rendering, at a fixed level
/// and after a fixed prefix, and returns the value unchanged.
#[derive(Clone, Debug, PartialEq, Eq)]
pub struct LogDebugService {
    level: Level,
    prefix: String,
}

impl View for LogDebugService {
    /// The configured level and prefix.
    type V = (Level, Seq<char>);

    closed spec fn view(&self) -> (Level, Seq<char>) {
        (self.level, self.prefix@)
    }
}

impl LogDebugService {
    /// A logger at `level` whose records start with `prefix`.
    pub fn new(level: Level, prefix: &str) -> (r: Self)
        ensures
            r@ == (level, prefix@),
    {
        LogDebugService { level, prefix: prefix.to_owned() }
    }

    /// The same as `new(Level::Debug, prefix)`.
    pub fn debug(prefix: &str) -> (r: Self)
        ensures
            r@ == (Level::Debug, prefix@),
    {
        Self::new(Level::Debug, prefix)
    }

    /// The same as `new(Level::Error, prefix)`.
    pub fn error(prefix: &str) -> (r: Self)
        ensures
            r@ == (Level::Error, prefix@),
    {
        Self::new(Level::Error, prefix)
    }

    /// The same as `new(Level::Info, prefix)`.
    pub fn info(prefix: &str) -> (r: Self)
        ensures
            r@ == (Level::Info, prefix@),
    {
        Self::new(Level::Info, prefix)
    }

    /// The same as `new(Level::Trace, prefix)`.
    pub fn trace(prefix: &str) -> (r: Self)
        ensures
            r@ == (Level::Trace, prefix@),
    {
        Self::new(Level::Trace, prefix)
    }

    /// The same as `new(Level::Warn, prefix)`.
    pub fn warn(prefix: &str) -> (r: Self)
        ensures
            r@ == (Level::Warn, prefix@),
    {
        Self::new(Level::Warn, prefix)
    }

    /// The record this logger emits for a value whose rendering is `rendered`.
    pub fn record(&self, rendered: &str) -> (r: Record)
        ensures
            is_record(r, self@.0, self@.1, rendered@),
    {
        compose(self.level, &self.prefix, rendered)
    }

    /// Appends one record for `input` to `out` and returns `input` unchanged.
    pub fn process<T: core::fmt::Debug>(&self, input: T, out: &mut Vec<Record>) -> (r: Result<T, ()>)
        ensures
            r == Ok::<T, ()>(input),
            appends_one(old(out)@, final(out)@, self@.0, self@.1),
    {
        emit_debug(self.level, &self.prefix, &input, out);
        Ok(input)
    }
}

/// Logs the `Debug` rendering of each present value it processes, at a fixed
/// level and after a fixed prefix; absent values pass without a record.
/// Values are returned unchanged.
#[derive(Clone, Debug, PartialEq, Eq)]
pub struct LogOptionalDebugService {
    level: Level,
    prefix: String,
}

impl View for LogOptionalDebugService {
    /// The configured level and prefix.
    type V = (Level, Seq<char>);

    closed spec fn view(&self) -> (Level, Seq<char>) {
        (self.level, self.prefix@)
    }
}

impl LogOptionalDebugService {
    /// A logger at `level` whose records start with `prefix`.
    pub fn new(level: Level, prefix: &str) -> (r: Self)
        ensures
            r@ == (level, prefix@),
    {
        LogOptionalDebugService { level, prefix: prefix.to_owned() }
    }

    /// The same as `new(Level::Debug, prefix)`.
    pub fn debug(prefix: &str) -> (r: Self)
        ensures
            r@ == (Level::Debug, prefix@),
    {
        Self::new(Level::Debug, prefix)
    }

    /// The same as `new(Level::Error, prefix)`.
    pub fn error(prefix: &str) -> (r: Self)
        ensures
            r@ == (Level::Error, prefix@),
    {
        Self::new(Level::Error, prefix)
    }

    /// The same as `new(Level::Info, prefix)`.
    pub fn info(prefix: &str) -> (r: Self)
        ensures
            r@ == (Level::Info, prefix@),
    {
        Self::new(Level::Info, prefix)
    }

    /// The same as `new(Level::Trace, prefix)`.
    pub fn trace(prefix: &str) -> (r: Self)
        ensures
            r@ == (Level::Trace, prefix@),
    {
        Self::new(Level::Trace, prefix)
    }

    /// The same as `new(Level::Warn, prefix)`.
    pub fn warn(prefix: &str) -> (r: Self)
        ensures
            r@ == (Level::Warn, prefix@),
    {
        Self::new(Level::Warn, prefix)
    }

    /// The record this logger emits for a present value whose rendering is
    /// `rendered`.
    pub fn record(&self, rendered: &str) -> (r: Record)
        ensures
            is_record(r, self@.0, self@.1, rendered@),
    {
        compose(self.level, &self.prefix, rendered)
    }

    /// Appends one record to `out` when `input` is present and none when it
    /// is absent, and returns `input` unchanged.
    pub fn process<T: core::fmt::Debug>(&self, input: Option<T>, out: &mut Vec<Record>) -> (r: Result<Option<T>, ()>)
        ensures
            r == Ok::<Option<T>, ()>(input),
            input is None ==> final(out)@ == old(out)@,
            input is Some ==> appends_one(old(out)@, final(out)@, self@.0, self@.1),
    {
        match &input {
            Some(x) => emit_debug(self.level, &self.prefix, x, out),
            None => {},
        }
        Ok(input)
    }
}

} // verus!
