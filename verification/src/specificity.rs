use vstd::prelude::*;

verus! {

/// Ranking weight used to break ties between multiple matching rules.
///
/// A totally ordered triple: id weight first, then the flattened
/// class-and-pseudo-class weight, then element weight. Each tier saturates
/// at 255 rather than wrapping.
#[derive(Clone, Copy, PartialEq, Eq, Structural, Debug)]
pub struct Specificity {
    pub id_weight: u8,
    pub class_weight: u8,
    pub element_weight: u8,
}

/// Strict lexicographic order on specificities: a higher id weight always
/// outranks, then class-and-pseudo weight, then element weight.
pub open spec fn spec_outranks(a: Specificity, b: Specificity) -> bool {
    ||| a.id_weight > b.id_weight
    ||| (a.id_weight == b.id_weight && a.class_weight > b.class_weight)
    ||| (a.id_weight == b.id_weight && a.class_weight == b.class_weight && a.element_weight
        > b.element_weight)
}

impl Specificity {
    pub open spec fn spec_zero() -> Specificity {
        Specificity { id_weight: 0, class_weight: 0, element_weight: 0 }
    }

    pub fn zero() -> (r: Specificity)
        ensures
            r == Specificity::spec_zero(),
    {
        Specificity { id_weight: 0, class_weight: 0, element_weight: 0 }
    }

    /// True if `self` strictly outranks `other`.
    pub fn outranks(&self, other: &Specificity) -> (r: bool)
        ensures
            r == spec_outranks(*self, *other),
    {
        if self.id_weight != other.id_weight {
            self.id_weight > other.id_weight
        } else if self.class_weight != other.class_weight {
            self.class_weight > other.class_weight
        } else {
            self.element_weight > other.element_weight
        }
    }

    /// Componentwise saturating sum, used to weigh a whole selector chain.
    pub open spec fn spec_plus(self, other: Specificity) -> Specificity {
        Specificity {
            id_weight: sat_add_u8(self.id_weight, other.id_weight),
            class_weight: sat_add_u8(self.class_weight, other.class_weight),
            element_weight: sat_add_u8(self.element_weight, other.element_weight),
        }
    }

    pub fn plus(&self, other: &Specificity) -> (r: Specificity)
        ensures
            r == self.spec_plus(*other),
    {
        Specificity {
            id_weight: sat_add_u8_exec(self.id_weight, other.id_weight),
            class_weight: sat_add_u8_exec(self.class_weight, other.class_weight),
            element_weight: sat_add_u8_exec(self.element_weight, other.element_weight),
        }
    }
}

/// Sum of two tier weights, saturating at 255.
pub open spec fn sat_add_u8(a: u8, b: u8) -> u8 {
    if a + b > 255 {
        255u8
    } else {
        (a + b) as u8
    }
}

fn sat_add_u8_exec(a: u8, b: u8) -> (r: u8)
    ensures
        r == sat_add_u8(a, b),
{
    if a > 255 - b {
        255
    } else {
        a + b
    }
}

/// The order on specificities is total: of two distinct triples one
/// strictly outranks the other, and outranking is asymmetric.
pub proof fn lemma_outranks_total(a: Specificity, b: Specificity)
    ensures
        a == b || spec_outranks(a, b) || spec_outranks(b, a),
        !(spec_outranks(a, b) && spec_outranks(b, a)),
        !spec_outranks(a, a),
{
}

/// Outranking is transitive.
pub proof fn lemma_outranks_transitive(a: Specificity, b: Specificity, c: Specificity)
    requires
        spec_outranks(a, b),
        spec_outranks(b, c),
    ensures
        spec_outranks(a, c),
{
}

} // verus!
