//! The command-line options kept with a bot: options that can also come from a
//! saved file, and how two sets of them combine.
use vstd::prelude::*;
use crate::config::LogLevel;

verus! {

/// Command-line options.
#[derive(Debug, Clone)]
pub struct Comm {
    pub log: Option<LogLevel>,
    pub v11: bool,
    pub event_cache_size: Option<usize>,
    pub time_zone: Option<i8>,
    pub sled: bool,
    pub disable_leveldb: bool,
}

/// `true`: the value of a switch that is on unless said otherwise.
pub fn default_true() -> (b: bool)
    ensures
        b,
{
    true
}

/// `a` replaced by `b` when `b` is given.
pub open spec fn or_later<T>(a: Option<T>, b: Option<T>) -> Option<T> {
    match b {
        Some(v) => Some(v),
        None => a,
    }
}

/// The options `a` with `b` laid over them: a value given in `b` wins, and a
/// switch is on when it is on in either.
pub open spec fn merged(a: Comm, b: Comm) -> Comm {
    Comm {
        log: or_later(a.log, b.log),
        v11: a.v11 || b.v11,
        event_cache_size: or_later(a.event_cache_size, b.event_cache_size),
        time_zone: a.time_zone,
        sled: a.sled || b.sled,
        disable_leveldb: a.disable_leveldb || b.disable_leveldb,
    }
}

impl Comm {
    /// Lays `other` over these options: its log level and cache size win
    /// where it gives them, and a switch on in either stays on.  The time
    /// zone is kept.
    pub fn merge(&mut self, other: Self)
        ensures
            *final(self) == merged(*old(self), other),
            other.log is Some ==> final(self).log == other.log,
            other.log is None ==> final(self).log == old(self).log,
            other.event_cache_size is Some ==> final(self).event_cache_size == other.event_cache_size,
            other.event_cache_size is None ==> final(self).event_cache_size == old(self).event_cache_size,
            final(self).time_zone == old(self).time_zone,
    {
        if let Some(l) = other.log {
            self.log = Some(l);
        }
        if let Some(n) = other.event_cache_size {
            self.event_cache_size = Some(n);
        }
        self.v11 = self.v11 || other.v11;
        self.sled = self.sled || other.sled;
        self.disable_leveldb = self.disable_leveldb || other.disable_leveldb;
    }
}

/// Laying `b` over `a`: a log level or cache size that `b` gives wins over
/// that of `a`, one that `b` leaves out is that of `a`; a switch is on when it
/// is on in either; the time zone is that of `a`.
pub proof fn law_merge_later_wins(a: Comm, b: Comm)
    ensures
        b.log is Some ==> merged(a, b).log == b.log,
        b.log is None ==> merged(a, b).log == a.log,
        b.event_cache_size is Some ==> merged(a, b).event_cache_size == b.event_cache_size,
        b.event_cache_size is None ==> merged(a, b).event_cache_size == a.event_cache_size,
        merged(a, b).v11 == (a.v11 || b.v11),
        merged(a, b).sled == (a.sled || b.sled),
        merged(a, b).disable_leveldb == (a.disable_leveldb || b.disable_leveldb),
        merged(a, b).time_zone == a.time_zone,
{
}

/// Laying the same options over twice changes nothing more than laying them
/// over once.
pub proof fn lemma_merge_idempotent(a: Comm, b: Comm)
    ensures
        merged(merged(a, b), b) == merged(a, b),
{
}

/// Laying over options that give nothing and switch nothing on changes
/// nothing.
pub proof fn lemma_merge_empty(a: Comm, b: Comm)
    requires
        b.log is None,
        b.event_cache_size is None,
        !b.v11,
        !b.sled,
        !b.disable_leveldb,
    ensures
        merged(a, b) == a,
{
}

} // verus!
