//! Monotonically increasing counter metric.

use vstd::prelude::*;

verus! {

/// A counter whose value only ever grows (modulo 2^64, as an atomic
/// counter wraps).
#[derive(Debug)]
pub struct Counter {
    name: &'static str,
    help: &'static str,
    value: u64,
}

impl Counter {
    /// The counter's current value.
    pub closed spec fn value(&self) -> u64 {
        self.value
    }

    /// The counter's metric name.
    pub closed spec fn spec_name(&self) -> &'static str {
        self.name
    }

    /// The counter's help text.
    pub closed spec fn spec_help(&self) -> &'static str {
        self.help
    }

    /// Create a counter at zero.
    pub fn new(name: &'static str, help: &'static str) -> (r: Self)
        ensures
            r.value() == 0,
            r.spec_name() == name,
            r.spec_help() == help,
    {
        Counter { name, help, value: 0 }
    }

    /// Increment by one.
    pub fn inc(&mut self)
        ensures
            final(self).value() == old(self).value().wrapping_add(1),
            final(self).spec_name() == old(self).spec_name(),
            final(self).spec_help() == old(self).spec_help(),
    {
        self.inc_by(1);
    }

    /// Increment by `val`, wrapping around at 2^64.
    pub fn inc_by(&mut self, val: u64)
        ensures
            final(self).value() == old(self).value().wrapping_add(val),
            final(self).spec_name() == old(self).spec_name(),
            final(self).spec_help() == old(self).spec_help(),
    {
        self.value = self.value.wrapping_add(val);
    }

    /// The current value.
    pub fn get(&self) -> (r: u64)
        ensures
            r == self.value(),
    {
        self.value
    }

    /// The metric name.
    pub fn name(&self) -> (r: &'static str)
        ensures
            r == self.spec_name(),
    {
        self.name
    }

    /// The help text.
    pub fn help(&self) -> (r: &'static str)
        ensures
            r == self.spec_help(),
    {
        self.help
    }
}

} // verus!
