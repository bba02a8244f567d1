use stylecore::hash::{hash_name, FNV_OFFSET};
use stylecore::{Property, StyleRule};
use stylecore::pseudo::{FOCUS_BIT, HOVER_BIT};
use stylecore::{PseudoClasses, Relation, Selector, Specificity};

#[test]
fn universal_selector_matches_everything() {
    let mut star = Selector::new();
    star.asterisk = true;
    let profile = Selector::new().id("anything").class("whatever");
    assert!(star.matches(&profile));
}

#[test]
fn id_must_match_exactly() {
    let sel = Selector::new().id("alpha");
    let same = Selector::new().id("alpha");
    let other = Selector::new().id("beta");
    assert!(sel.matches(&same));
    assert!(!sel.matches(&other));
    assert!(!sel.matches(&Selector::new()));
}

#[test]
fn element_must_match_exactly() {
    let sel = Selector::from("button");
    let same = Selector::from("button");
    let other = Selector::from("slider");
    assert!(sel.matches(&same));
    assert!(!sel.matches(&other));
}

#[test]
fn classes_are_subset_matched() {
    let sel = Selector::new().class("a").class("b");
    let superset = Selector::new().class("b").class("c").class("a");
    let partial = Selector::new().class("a");
    assert!(sel.matches(&superset));
    assert!(!sel.matches(&partial));
    // an unspecified class list matches any profile
    assert!(Selector::new().matches(&partial));
}

#[test]
fn pseudo_mask_shares_a_bit() {
    // a selector requiring hover matches a profile that is hovered and
    // focused, but not one that is only focused
    let mut sel = Selector::new();
    sel.pseudo_classes = PseudoClasses(HOVER_BIT);
    let mut hovered_and_focused = Selector::new();
    hovered_and_focused.pseudo_classes = PseudoClasses(HOVER_BIT | FOCUS_BIT);
    let mut focused_only = Selector::new();
    focused_only.pseudo_classes = PseudoClasses(FOCUS_BIT);
    assert!(sel.matches(&hovered_and_focused));
    assert!(!sel.matches(&focused_only));
}

#[test]
fn pseudo_setters_flip_bits() {
    let mut pc = PseudoClasses::new();
    pc.set_hover(true);
    pc.set_focus(true);
    assert_eq!(pc.0, HOVER_BIT | FOCUS_BIT);
    pc.set_hover(false);
    assert_eq!(pc.0, FOCUS_BIT);
    pc.set_over(true);
    pc.set_active(true);
    pc.set_enabled(true);
    pc.set_disabled(true);
    pc.set_checked(true);
    pc.set_focus(false);
    assert_eq!(pc.0, 0x02 | 0x04 | 0x10 | 0x20 | 0x40);
}

#[test]
fn specificity_counts_tiers() {
    let mut sel = Selector::new().id("x").class("a").class("b");
    sel.pseudo_classes = PseudoClasses(HOVER_BIT);
    let s = sel.specificity();
    assert_eq!(
        s,
        Specificity { id_weight: 1, class_weight: 3, element_weight: 0 }
    );
    let sel2 = Selector::from("button");
    assert_eq!(
        sel2.specificity(),
        Specificity { id_weight: 0, class_weight: 0, element_weight: 1 }
    );
}

#[test]
fn specificity_order_is_lexicographic() {
    let a = Specificity { id_weight: 1, class_weight: 0, element_weight: 0 };
    let b = Specificity { id_weight: 0, class_weight: 5, element_weight: 0 };
    let c = Specificity { id_weight: 0, class_weight: 5, element_weight: 1 };
    assert!(a.outranks(&b));
    assert!(!b.outranks(&a));
    assert!(c.outranks(&b));
    assert!(!b.outranks(&b));
}

#[test]
fn class_builder_does_not_duplicate() {
    let sel = Selector::new().class("a").class("a").class("b");
    assert_eq!(sel.classes.len(), 2);
}

#[test]
fn replace_class_swaps_names() {
    let mut sel = Selector::new().class("old");
    sel.replace_class("old", "new");
    assert_eq!(sel.classes.len(), 1);
    assert_eq!(sel.classes[0], "new");
    let probe = Selector::new().class("new");
    assert!(probe.matches(&sel));
}

#[test]
fn set_id_and_set_element_intern_hashes() {
    let mut sel = Selector::new();
    sel.set_id("header");
    sel.set_element("panel");
    assert_eq!(sel.id, Some(hash_name("header")));
    assert_eq!(sel.element, Some(hash_name("panel")));
}

#[test]
fn hash_name_is_deterministic_and_separates() {
    assert_eq!(hash_name("hover"), hash_name("hover"));
    assert_ne!(hash_name("hover"), hash_name("focus"));
    assert_ne!(hash_name(""), hash_name("a"));
}

#[test]
fn hash_name_matches_known_vectors() {
    // FNV-1a, 64-bit: the empty string hashes to the offset basis, and
    // "a" to its published test vector
    assert_eq!(hash_name(""), FNV_OFFSET);
    assert_eq!(hash_name("a"), 0xaf63dc4c8601ec8c);
    assert_eq!(hash_name("foobar"), 0x85944171f73967e8);
}

#[test]
fn chain_specificity_sums_selectors() {
    let mut second = Selector::new().class("row").class("wide");
    second.relation = Relation::Parent;
    let rule = StyleRule {
        selectors: vec![Selector::new().class("panel").id("main"), second],
        properties: vec![Property::Width(stylecore::Length::Auto)],
    };
    assert_eq!(
        rule.specificity(),
        Specificity { id_weight: 1, class_weight: 3, element_weight: 0 }
    );
}

#[test]
fn relation_defaults_to_unchained() {
    let sel = Selector::new();
    assert!(matches!(sel.relation, Relation::Unchained));
}
