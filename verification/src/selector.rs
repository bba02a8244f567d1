use vstd::prelude::*;

use crate::hash::{hash_name, spec_hash_name};
use crate::pseudo::{spec_pseudo_weight, PseudoClasses};
use crate::specificity::Specificity;

verus! {

/// How a selector links to the prior selector in a chain.
///
/// `Unchained` stands alone (the first selector of a chain); `Ancestor`
/// requires the prior selector to match some strict ancestor of this
/// selector's entity (descendant combinator); `Parent` requires it to match
/// the direct parent (child combinator).
#[derive(Clone, Copy, PartialEq, Eq, Structural, Debug)]
pub enum Relation {
    Unchained,
    Ancestor,
    Parent,
}

/// A matchable predicate over an entity's identity.
///
/// Id and element names are stored as 64-bit hashes of the interned
/// strings, compared by equality; class names are kept as strings. A
/// selector doubles as an entity's profile during matching: the facade
/// builds a `Selector` out of an entity's id, element, classes and
/// pseudo-class flags and matches every rule's selector chain against it.
#[derive(Clone, Debug)]
pub struct Selector {
    pub id: Option<u64>,
    pub element: Option<u64>,
    pub classes: Vec<String>,
    pub pseudo_classes: PseudoClasses,
    pub relation: Relation,
    pub asterisk: bool,
}

/// Every class in `sub` occurs in `sup`.
pub open spec fn spec_class_subset(sub: Seq<Seq<char>>, sup: Seq<Seq<char>>) -> bool {
    forall|i: int| 0 <= i < sub.len() ==> sup.contains(#[trigger] sub[i])
}

/// Asymmetric matching of a selector against an entity profile: every field
/// the selector specifies must be satisfied by the profile; unspecified
/// fields always match.
///
/// - the universal selector matches any profile;
/// - a specified id or element hash must equal the profile's exactly;
/// - the selector's classes must be a subset of the profile's;
/// - a non-empty pseudo-class mask must share at least one bit with the
///   profile's mask (or-semantics: a selector requiring hover matches a
///   profile that is both hovered and focused).
pub open spec fn spec_matches(sel: Selector, profile: Selector) -> bool {
    if sel.asterisk {
        true
    } else {
        &&& (sel.id is Some ==> sel.id == profile.id)
        &&& (sel.element is Some ==> sel.element == profile.element)
        &&& spec_class_subset(sel.classes.deep_view(), profile.classes.deep_view())
        &&& (sel.pseudo_classes.0 != 0 ==> (sel.pseudo_classes.0 & profile.pseudo_classes.0) != 0)
    }
}

/// The specificity of one selector: id tier, flattened class-and-pseudo
/// tier, element tier, each saturating at 255.
pub open spec fn spec_selector_specificity(sel: Selector) -> Specificity {
    Specificity {
        id_weight: if sel.id is Some {
            1u8
        } else {
            0u8
        },
        class_weight: if sel.classes.deep_view().len() + spec_pseudo_weight(sel.pseudo_classes.0)
            > 255 {
            255u8
        } else {
            (sel.classes.deep_view().len() + spec_pseudo_weight(sel.pseudo_classes.0)) as u8
        },
        element_weight: if sel.element is Some {
            1u8
        } else {
            0u8
        },
    }
}

/// True if some entry of `list` equals `name`.
pub fn list_contains(list: &Vec<String>, name: &String) -> (b: bool)
    ensures
        b == list.deep_view().contains(name@),
{
    let mut j: usize = 0;
    while j < list.len()
        invariant
            j <= list@.len(),
            forall|k: int| 0 <= k < j ==> list.deep_view()[k] != name@,
        decreases list@.len() - j,
    {
        if list[j].eq(name) {
            proof {
                assert(list.deep_view()[j as int] == name@);
            }
            return true;
        }
        j = j + 1;
    }
    false
}

impl Default for Selector {
    /// A selector with nothing specified: it matches every profile.
    fn default() -> (r: Selector)
        ensures
            r.id is None,
            r.element is None,
            r.classes@.len() == 0,
            r.pseudo_classes.0 == 0,
            r.relation == Relation::Unchained,
            !r.asterisk,
    {
        Selector {
            id: None,
            element: None,
            classes: Vec::new(),
            pseudo_classes: PseudoClasses(0),
            relation: Relation::Unchained,
            asterisk: false,
        }
    }
}

impl Selector {
    /// A selector with nothing specified: it matches every profile.
    pub fn new() -> (r: Selector)
        ensures
            r.id is None,
            r.element is None,
            r.classes@.len() == 0,
            r.pseudo_classes.0 == 0,
            r.relation == Relation::Unchained,
            !r.asterisk,
    {
        Selector {
            id: None,
            element: None,
            classes: Vec::new(),
            pseudo_classes: PseudoClasses(0),
            relation: Relation::Unchained,
            asterisk: false,
        }
    }

    /// A selector that requires the given element name.
    pub fn from(element: &str) -> (r: Selector)
        ensures
            r.id is None,
            r.element == Some(spec_hash_name(element)),
            r.classes@.len() == 0,
            r.pseudo_classes.0 == 0,
            r.relation == Relation::Unchained,
            !r.asterisk,
    {
        Selector {
            id: None,
            element: Some(hash_name(element)),
            classes: Vec::new(),
            pseudo_classes: PseudoClasses(0),
            relation: Relation::Unchained,
            asterisk: false,
        }
    }

    /// Whether this selector matches the given entity profile.
    #[verifier::loop_isolation(false)]
    pub fn matches(&self, entity_selector: &Selector) -> (b: bool)
        ensures
            b == spec_matches(*self, *entity_selector),
    {
        if self.asterisk {
            return true;
        }
        match self.id {
            Some(id) => {
                match entity_selector.id {
                    Some(pid) => {
                        if id != pid {
                            return false;
                        }
                    },
                    None => {
                        return false;
                    },
                }
            },
            None => {},
        }
        match self.element {
            Some(el) => {
                match entity_selector.element {
                    Some(pel) => {
                        if el != pel {
                            return false;
                        }
                    },
                    None => {
                        return false;
                    },
                }
            },
            None => {},
        }
        let mut i: usize = 0;
        while i < self.classes.len()
            invariant
                i <= self.classes@.len(),
                forall|k: int|
                    0 <= k < i ==> entity_selector.classes.deep_view().contains(
                        #[trigger] self.classes.deep_view()[k],
                    ),
            decreases self.classes@.len() - i,
        {
            if !list_contains(&entity_selector.classes, &self.classes[i]) {
                proof {
                    assert(self.classes.deep_view()[i as int] == self.classes@[i as int]@);
                    assert(!entity_selector.classes.deep_view().contains(
                        self.classes.deep_view()[i as int],
                    ));
                }
                return false;
            }
            i = i + 1;
        }
        if self.pseudo_classes.0 != 0 && (self.pseudo_classes.0 & entity_selector.pseudo_classes.0)
            == 0 {
            return false;
        }
        true
    }

    /// The specificity of this selector alone: a pure function of its
    /// fields.
    pub fn specificity(&self) -> (s: Specificity)
        ensures
            s == spec_selector_specificity(*self),
    {
        let pw = PseudoClasses(self.pseudo_classes.0).weight();
        let n = self.classes.len();
        let cw: u8 = if n > 255 {
            255
        } else if n as u8 > 255 - pw {
            255
        } else {
            n as u8 + pw
        };
        Specificity {
            id_weight: if self.id.is_some() {
                1
            } else {
                0
            },
            class_weight: cw,
            element_weight: if self.element.is_some() {
                1
            } else {
                0
            },
        }
    }

    /// Builder: require an id name.
    pub fn id(self, id: &str) -> (r: Selector)
        ensures
            r == (Selector { id: Some(spec_hash_name(id)), ..self }),
    {
        Selector { id: Some(hash_name(id)), ..self }
    }

    /// Builder: require a class name (no effect if already required).
    pub fn class(self, class: &str) -> (r: Selector)
        ensures
            r.classes.deep_view() == if self.classes.deep_view().contains(class@) {
                self.classes.deep_view()
            } else {
                self.classes.deep_view().push(class@)
            },
            r.id == self.id,
            r.element == self.element,
            r.pseudo_classes == self.pseudo_classes,
            r.relation == self.relation,
            r.asterisk == self.asterisk,
    {
        let owned = class.to_owned();
        let mut r = self;
        if !list_contains(&r.classes, &owned) {
            let ghost before = r.classes.deep_view();
            r.classes.push(owned);
            proof {
                assert(r.classes.deep_view() =~= before.push(class@));
            }
        }
        r
    }

    /// Replace one required class name by another: the old name is dropped
    /// wherever it occurs, the new one appended if not already required.
    pub fn replace_class(&mut self, old_name: &str, new_name: &str)
        ensures
            ({
                let dropped = old(self).classes.deep_view().filter(
                    |c: Seq<char>| c != old_name@,
                );
                final(self).classes.deep_view() == if dropped.contains(new_name@) {
                    dropped
                } else {
                    dropped.push(new_name@)
                }
            }),
            final(self).id == old(self).id,
            final(self).element == old(self).element,
            final(self).pseudo_classes == old(self).pseudo_classes,
            final(self).relation == old(self).relation,
            final(self).asterisk == old(self).asterisk,
    {
        self.remove_class_name(old_name);
        let owned = new_name.to_owned();
        if !list_contains(&self.classes, &owned) {
            let ghost before = self.classes.deep_view();
            self.classes.push(owned);
            proof {
                assert(self.classes.deep_view() =~= before.push(new_name@));
            }
        }
    }

    /// Drop every occurrence of `name` from the required classes.
    pub fn remove_class_name(&mut self, name: &str)
        ensures
            final(self).classes.deep_view() == old(self).classes.deep_view().filter(
                |c: Seq<char>| c != name@,
            ),
            final(self).id == old(self).id,
            final(self).element == old(self).element,
            final(self).pseudo_classes == old(self).pseudo_classes,
            final(self).relation == old(self).relation,
            final(self).asterisk == old(self).asterisk,
    {
        let ghost pred = |c: Seq<char>| c != name@;
        let owned = name.to_owned();
        let mut kept: Vec<String> = Vec::new();
        let mut i: usize = 0;
        while i < self.classes.len()
            invariant
                i <= self.classes@.len(),
                owned@ == name@,
                kept.deep_view() == self.classes.deep_view().subrange(0, i as int).filter(pred),
                pred == (|c: Seq<char>| c != name@),
            decreases self.classes@.len() - i,
        {
            let ghost dv = self.classes.deep_view();
            let ghost pre = dv.subrange(0, i as int);
            let ghost cur = dv.subrange(0, i + 1);
            let ghost kept_before = kept.deep_view();
            let keep = !self.classes[i].eq(&owned);
            if keep {
                let c = self.classes[i].clone();
                kept.push(c);
                proof {
                    assert(kept.deep_view() =~= kept_before.push(dv[i as int]));
                }
            }
            i = i + 1;
            proof {
                reveal(Seq::filter);
                assert(cur.drop_last() =~= pre);
                assert(cur.last() == dv[i - 1]);
                assert(cur.filter(pred) == if pred(dv[i - 1]) {
                    pre.filter(pred).push(dv[i - 1])
                } else {
                    pre.filter(pred)
                });
            }
        }
        proof {
            assert(self.classes.deep_view().subrange(0, self.classes.deep_view().len() as int)
                =~= self.classes.deep_view());
        }
        self.classes = kept;
    }

    /// Set the required id name.
    pub fn set_id(&mut self, id: &str) -> (r: &mut Selector)
        ensures
            *r == (Selector { id: Some(spec_hash_name(id)), ..*old(self) }),
            *final(self) == *final(r),
    {
        self.id = Some(hash_name(id));
        self
    }

    /// Set the required element name.
    pub fn set_element(&mut self, element: &str) -> (r: &mut Selector)
        ensures
            *r == (Selector { element: Some(spec_hash_name(element)), ..*old(self) }),
            *final(self) == *final(r),
    {
        self.element = Some(hash_name(element));
        self
    }
}

} // verus!
