//! Runtime constant values as the chunk stores them. The chunk treats a
//! value as opaque data: it is stored once, referenced by pool index from
//! the instruction stream, and rendered only by the disassembler.

use vstd::prelude::*;

use crate::text::int_digits;

verus! {

/// One runtime value held in a chunk's constant pool.
#[derive(Clone, Copy, Debug, PartialEq, Eq, Structural)]
pub struct Value(pub i64);

/// The text the disassembler prints for a constant value.
pub open spec fn value_text(v: Value) -> Seq<char> {
    int_digits(v.0 as int)
}

impl Value {
    /// The display form of this value.
    pub fn render(&self) -> (r: String)
        ensures
            r@ == value_text(*self),
    {
        let mut s = String::new();
        crate::text::push_int(&mut s, self.0);
        proof {
            assert(s@ =~= value_text(*self));
        }
        s
    }
}

} // verus!
