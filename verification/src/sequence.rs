//! The source of version 7 identifiers, which remembers the last one it
//! handed out and never hands out one below it.

use crate::backend::sortable_random_identifier;
use crate::identifier::{
    has_standard_variant, lemma_value_of_zeros, not_below, value_of, version_of, Identifier,
};
use vstd::prelude::*;

verus! {

/// A source of version 7 identifiers. No identifier that it hands out is
/// below one that it handed out before.
#[derive(Debug)]
pub struct SortableSource {
    last: [u8; 16],
}

impl SortableSource {
    /// What is remembered is sixteen zero bytes or a version 7 identifier.
    #[verifier::type_invariant]
    spec fn holds_an_identifier(self) -> bool {
        value_of(self.last@) == 0 || (version_of(self.last@) == 7 && has_standard_variant(
            self.last@,
        ))
    }

    /// The identifier handed out last; sixteen zero bytes before the first.
    pub closed spec fn last(&self) -> Seq<u8> {
        self.last@
    }

    /// A source that has handed out nothing yet.
    pub fn new() -> (source: SortableSource)
        ensures
            source.last().len() == 16,
            value_of(source.last()) == 0,
    {
        let zeros: [u8; 16] = [0u8; 16];
        proof {
            lemma_value_of_zeros(zeros@);
        }
        SortableSource { last: zeros }
    }

    /// The identifier handed out last; sixteen zero bytes before the first.
    pub fn last_issued(&self) -> (bytes: [u8; 16])
        ensures
            bytes@ == self.last(),
    {
        self.last
    }

    /// Hands out the next identifier and remembers it.
    ///
    /// The identifier is drawn from the generator and compared with the one
    /// handed out last. The generator keeps its identifiers in order within a
    /// process, so the drawn one is not below. Should it ever be, the last
    /// one is handed out again: the order holds whatever is drawn.
    pub fn next(&mut self) -> (bytes: [u8; 16])
        ensures
            version_of(bytes@) == 7,
            has_standard_variant(bytes@),
            not_below(bytes@, old(self).last()),
            final(self).last() == bytes@,
    {
        proof {
            use_type_invariant(&*self);
        }
        let drawn = sortable_random_identifier();
        if Identifier::from_bytes(drawn).as_u128() >= Identifier::from_bytes(self.last).as_u128() {
            self.last = drawn;
            drawn
        } else {
            self.last
        }
    }
}

} // verus!
