//! Runtime values and the constant pool.

use vstd::prelude::*;

verus! {

/// A runtime value: the bit pattern of an IEEE-754 binary64 number.
pub type Value = u64;

/// An append-only table of constants; a constant's index is its position.
pub struct ValueArray {
    pub values: Vec<Value>,
}

impl ValueArray {
    /// An empty pool.
    pub fn new() -> (r: Self)
        ensures
            r.values@ == Seq::<Value>::empty(),
    {
        ValueArray { values: Vec::new() }
    }

    /// The number of constants in the pool.
    pub fn count(&self) -> (r: usize)
        ensures
            r == self.values@.len(),
    {
        self.values.len()
    }

    /// Appends `value` at the next index; nothing is deduplicated.
    pub fn write_value(&mut self, value: Value)
        ensures
            final(self).values@ == old(self).values@.push(value),
    {
        self.values.push(value);
    }

    /// The constant at `index`, or `None` past the end of the pool.
    pub fn read_value(&self, index: usize) -> (r: Option<Value>)
        ensures
            r == (if index < self.values@.len() {
                Some(self.values@[index as int])
            } else {
                None
            }),
    {
        if index < self.values.len() {
            Some(self.values[index])
        } else {
            None
        }
    }
}

} // verus!
