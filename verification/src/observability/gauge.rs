//! Gauge metric representing a value that can increase or decrease.

use vstd::prelude::*;

verus! {

/// A gauge: a signed value that can be set, raised and lowered (wrapping
/// around at the bounds of `i64`, as an atomic gauge does).
#[derive(Debug)]
pub struct Gauge {
    name: &'static str,
    help: &'static str,
    value: i64,
}

impl Gauge {
    /// The gauge's current value.
    pub closed spec fn value(&self) -> i64 {
        self.value
    }

    /// The gauge's metric name.
    pub closed spec fn spec_name(&self) -> &'static str {
        self.name
    }

    /// The gauge's help text.
    pub closed spec fn spec_help(&self) -> &'static str {
        self.help
    }

    /// Create a gauge at zero.
    pub fn new(name: &'static str, help: &'static str) -> (r: Self)
        ensures
            r.value() == 0,
            r.spec_name() == name,
            r.spec_help() == help,
    {
        Gauge { name, help, value: 0 }
    }

    /// Set the value.
    pub fn set(&mut self, val: i64)
        ensures
            final(self).value() == val,
            final(self).spec_name() == old(self).spec_name(),
            final(self).spec_help() == old(self).spec_help(),
    {
        self.value = val;
    }

    /// Raise by one.
    pub fn inc(&mut self)
        ensures
            final(self).value() == old(self).value().wrapping_add(1),
            final(self).spec_name() == old(self).spec_name(),
            final(self).spec_help() == old(self).spec_help(),
    {
        self.add(1);
    }

    /// Lower by one.
    pub fn dec(&mut self)
        ensures
            final(self).value() == old(self).value().wrapping_sub(1),
            final(self).spec_name() == old(self).spec_name(),
            final(self).spec_help() == old(self).spec_help(),
    {
        self.sub(1);
    }

    /// Raise by `delta`, wrapping around at the bounds of `i64`.
    pub fn add(&mut self, delta: i64)
        ensures
            final(self).value() == old(self).value().wrapping_add(delta),
            final(self).spec_name() == old(self).spec_name(),
            final(self).spec_help() == old(self).spec_help(),
    {
        self.value = self.value.wrapping_add(delta);
    }

    /// Lower by `delta`, wrapping around at the bounds of `i64`.
    pub fn sub(&mut self, delta: i64)
        ensures
            final(self).value() == old(self).value().wrapping_sub(delta),
            final(self).spec_name() == old(self).spec_name(),
            final(self).spec_help() == old(self).spec_help(),
    {
        self.value = self.value.wrapping_sub(delta);
    }

    /// The current value.
    pub fn get(&self) -> (r: i64)
        ensures
            r == self.value(),
    {
        self.value
    }

    /// The metric name.
    pub fn name(&self) -> (r: &'static str)
        ensures
            r == self.spec_name(),
    {
        self.name
    }

    /// The help text.
    pub fn help(&self) -> (r: &'static str)
        ensures
            r == self.spec_help(),
    {
        self.help
    }
}

} // verus!
