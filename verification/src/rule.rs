use vstd::prelude::*;

use crate::property::Property;
use crate::selector::{spec_selector_specificity, Selector};
use crate::specificity::Specificity;

verus! {

/// A selector chain paired with the property assignments it applies.
///
/// The chain is kept in source order: the last selector describes the
/// entity itself, and each selector's `relation` says how the selector
/// before it constrains that entity's lineage.
#[derive(Clone, Debug)]
pub struct StyleRule {
    pub selectors: Vec<Selector>,
    pub properties: Vec<Property>,
}

/// The specificity of a whole chain: the componentwise saturating sum of
/// its selectors' specificities.
pub open spec fn spec_chain_specificity(chain: Seq<Selector>) -> Specificity
    decreases chain.len(),
{
    if chain.len() == 0 {
        Specificity::spec_zero()
    } else {
        spec_chain_specificity(chain.drop_last()).spec_plus(
            spec_selector_specificity(chain.last()),
        )
    }
}

impl StyleRule {
    pub fn new() -> (r: StyleRule)
        ensures
            r.selectors@.len() == 0,
            r.properties@.len() == 0,
    {
        StyleRule { selectors: Vec::new(), properties: Vec::new() }
    }

    /// The rule's ranking weight, a pure function of its selector chain.
    pub fn specificity(&self) -> (s: Specificity)
        ensures
            s == spec_chain_specificity(self.selectors@),
    {
        let mut acc = Specificity::zero();
        let mut i: usize = 0;
        while i < self.selectors.len()
            invariant
                i <= self.selectors@.len(),
                acc == spec_chain_specificity(self.selectors@.subrange(0, i as int)),
            decreases self.selectors@.len() - i,
        {
            let s = self.selectors[i].specificity();
            acc = acc.plus(&s);
            i = i + 1;
            proof {
                let pre = self.selectors@.subrange(0, i - 1);
                let cur = self.selectors@.subrange(0, i as int);
                assert(cur.drop_last() =~= pre);
                assert(cur.last() == self.selectors@[i - 1]);
            }
        }
        proof {
            assert(self.selectors@.subrange(0, self.selectors@.len() as int) =~= self.selectors@);
        }
        acc
    }
}

} // verus!
