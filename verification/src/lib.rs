//! A small scaffold library: a logger stub that records output lines as
//! data, and a summation helper that logs a fixed line.

use vstd::prelude::*;

pub mod large_numbers;

verus! {

/// Returns the sum of the two inputs and, whatever the inputs are, records
/// exactly one line through the logger stub: the fixed prefix followed by
/// `from add()`.
pub fn add(log: &mut large_numbers::Log, left: usize, right: usize) -> (sum: usize)
    requires
        left + right <= usize::MAX,
    ensures
        sum == left + right,
        final(log)@ == old(log)@.push(large_numbers::line_for("from add()"@)),
{
    large_numbers::do_something(log, "from add()");
    left + right
}

} // verus!
