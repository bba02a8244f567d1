use stylecore::{
    Color, Entity, Hierarchy, Length, Property, Relation, Selector, Style, StyleRule,
};

fn rule(selectors: Vec<Selector>, properties: Vec<Property>) -> StyleRule {
    StyleRule { selectors, properties }
}

fn five_class_selector() -> Selector {
    Selector::new()
        .class("c1")
        .class("c2")
        .class("c3")
        .class("c4")
        .class("c5")
}

fn entity_with_five_classes(style: &mut Style, h: &mut Hierarchy) -> Entity {
    let e = h.create(Entity::null());
    style.add(e);
    style.insert_id(e, "boss");
    style.insert_class(e, "c1");
    style.insert_class(e, "c2");
    style.insert_class(e, "c3");
    style.insert_class(e, "c4");
    style.insert_class(e, "c5");
    e
}

#[test]
fn resolution_is_deterministic() {
    let mut style = Style::new();
    let mut h = Hierarchy::new();
    let e = h.create(Entity::null());
    style.add(e);
    style.insert_class(e, "row");
    style.load_theme(vec![rule(
        vec![Selector::new().class("row")],
        vec![Property::Width(Length::Pixels(120))],
    )]);
    style.restyle(&h, e, 0);
    let first = style.get_width(e);
    let second = style.get_width(e);
    assert_eq!(first, second);
    style.restyle(&h, e, 0);
    assert_eq!(style.get_width(e), first);
    assert_eq!(first, Length::Pixels(120));
}

#[test]
fn higher_specificity_wins_either_order() {
    // R1 has specificity [1,0,0], R2 has [0,5,0]; R1's value wins in both
    // declaration orders
    let r1 = || {
        rule(
            vec![Selector::new().id("boss")],
            vec![Property::Width(Length::Pixels(300))],
        )
    };
    let r2 = || {
        rule(
            vec![five_class_selector()],
            vec![Property::Width(Length::Pixels(400))],
        )
    };
    for flipped in [false, true] {
        let mut style = Style::new();
        let mut h = Hierarchy::new();
        let e = entity_with_five_classes(&mut style, &mut h);
        let rules = if flipped {
            vec![r2(), r1()]
        } else {
            vec![r1(), r2()]
        };
        style.load_theme(rules);
        style.restyle(&h, e, 0);
        assert_eq!(style.get_width(e), Length::Pixels(300));
    }
}

#[test]
fn later_declaration_wins_ties() {
    let red = rule(
        vec![Selector::new().class("row")],
        vec![Property::BackgroundColor(Color::rgb(200, 0, 0))],
    );
    let green = rule(
        vec![Selector::new().class("row")],
        vec![Property::BackgroundColor(Color::rgb(0, 200, 0))],
    );
    let mut style = Style::new();
    let mut h = Hierarchy::new();
    let e = h.create(Entity::null());
    style.add(e);
    style.insert_class(e, "row");
    style.load_theme(vec![red, green]);
    style.restyle(&h, e, 0);
    assert_eq!(style.get_background_color(e), Color::rgb(0, 200, 0));

    let red = rule(
        vec![Selector::new().class("row")],
        vec![Property::BackgroundColor(Color::rgb(200, 0, 0))],
    );
    let green = rule(
        vec![Selector::new().class("row")],
        vec![Property::BackgroundColor(Color::rgb(0, 200, 0))],
    );
    let mut style = Style::new();
    let mut h = Hierarchy::new();
    let e = h.create(Entity::null());
    style.add(e);
    style.insert_class(e, "row");
    style.load_theme(vec![green, red]);
    style.restyle(&h, e, 0);
    assert_eq!(style.get_background_color(e), Color::rgb(200, 0, 0));
}

#[test]
fn child_combinator_needs_direct_parent() {
    // ".panel > .row" matches a row whose direct parent is a panel, not
    // one whose grandparent is
    let chain = || {
        let first = Selector::new().class("panel");
        let mut second = Selector::new().class("row");
        second.relation = Relation::Parent;
        rule(
            vec![first, second],
            vec![Property::Width(Length::Pixels(77))],
        )
    };

    let mut style = Style::new();
    let mut h = Hierarchy::new();
    let panel = h.create(Entity::null());
    let row = h.create(panel);
    style.add(panel);
    style.add(row);
    style.insert_class(panel, "panel");
    style.insert_class(row, "row");
    style.load_theme(vec![chain()]);
    style.restyle(&h, row, 0);
    assert_eq!(style.get_width(row), Length::Pixels(77));

    let mut style = Style::new();
    let mut h = Hierarchy::new();
    let panel = h.create(Entity::null());
    let middle = h.create(panel);
    let row = h.create(middle);
    style.add(panel);
    style.add(middle);
    style.add(row);
    style.insert_class(panel, "panel");
    style.insert_class(row, "row");
    style.load_theme(vec![chain()]);
    style.restyle(&h, row, 0);
    assert_eq!(style.get_width(row), Length::Auto);
}

#[test]
fn ancestor_combinator_walks_up() {
    let first = Selector::new().class("panel");
    let mut second = Selector::new().class("row");
    second.relation = Relation::Ancestor;
    let r = rule(
        vec![first, second],
        vec![Property::Width(Length::Pixels(55))],
    );
    let mut style = Style::new();
    let mut h = Hierarchy::new();
    let panel = h.create(Entity::null());
    let middle = h.create(panel);
    let row = h.create(middle);
    style.add(panel);
    style.add(middle);
    style.add(row);
    style.insert_class(panel, "panel");
    style.insert_class(row, "row");
    style.load_theme(vec![r]);
    style.restyle(&h, row, 0);
    assert_eq!(style.get_width(row), Length::Pixels(55));
}

#[test]
fn removed_entity_reads_type_defaults() {
    let mut style = Style::new();
    let mut h = Hierarchy::new();
    let e = h.create(Entity::null());
    style.add(e);
    style.insert_class(e, "row");
    style.set_width(e, Length::Pixels(10));
    style.set_background_color(e, Color::rgb(1, 2, 3));
    style.load_theme(vec![rule(
        vec![Selector::new().class("row")],
        vec![Property::Display(stylecore::Display::Hidden)],
    )]);
    style.restyle(&h, e, 0);
    style.remove(e);
    assert_eq!(style.get_width(e), Length::Auto);
    assert_eq!(style.get_height(e), Length::Auto);
    assert_eq!(style.get_display(e), stylecore::Display::Flex);
    assert_eq!(style.get_visibility(e), stylecore::Visibility::Visible);
    assert_eq!(style.get_background_color(e), Color::rgba(0, 0, 0, 0));
    assert_eq!(style.get_font_color(e), Color::rgb(0, 0, 0));
    assert_eq!(style.get_opacity(e), stylecore::Opacity(1000));
    assert_eq!(style.get_margin_left(e), Length::Auto);
    assert_eq!(style.get_padding_bottom(e), Length::Auto);
    assert_eq!(style.get_z_order(e), 0);
    // removal is idempotent and never faults
    style.remove(e);
    assert_eq!(style.get_width(e), Length::Auto);
}

#[test]
fn never_added_entity_reads_type_defaults() {
    let style = Style::new();
    let mut h = Hierarchy::new();
    let e = h.create(Entity::null());
    assert_eq!(style.get_width(e), Length::Auto);
    assert_eq!(style.get_opacity(e), stylecore::Opacity(1000));
}

#[test]
fn class_round_trip_restores_resolution() {
    let base = rule(
        vec![Selector::new().class("row")],
        vec![Property::Width(Length::Pixels(100))],
    );
    let wide = rule(
        vec![Selector::new().class("row").class("wide")],
        vec![Property::Width(Length::Pixels(500))],
    );
    let mut style = Style::new();
    let mut h = Hierarchy::new();
    let e = h.create(Entity::null());
    style.add(e);
    style.insert_class(e, "row");
    style.load_theme(vec![base, wide]);
    style.restyle(&h, e, 0);
    let before = style.get_width(e);
    assert_eq!(before, Length::Pixels(100));
    style.insert_class(e, "wide");
    style.restyle(&h, e, 0);
    assert_eq!(style.get_width(e), Length::Pixels(500));
    style.remove_class(e, "wide");
    style.restyle(&h, e, 0);
    assert_eq!(style.get_width(e), before);
}

#[test]
fn inline_override_beats_rules_until_cleared() {
    let mut style = Style::new();
    let mut h = Hierarchy::new();
    let e = h.create(Entity::null());
    style.add(e);
    style.insert_class(e, "row");
    style.load_theme(vec![rule(
        vec![Selector::new().class("row")],
        vec![Property::Width(Length::Pixels(100))],
    )]);
    style.set_width(e, Length::Pixels(42));
    style.restyle(&h, e, 0);
    assert_eq!(style.get_width(e), Length::Pixels(42));
    style.width.remove_override(e);
    style.restyle(&h, e, 0);
    assert_eq!(style.get_width(e), Length::Pixels(100));
}

#[test]
fn margin_and_padding_shorthands_expand() {
    let mut style = Style::new();
    let mut h = Hierarchy::new();
    let e = h.create(Entity::null());
    style.add(e);
    style.insert_class(e, "box");
    style.load_theme(vec![rule(
        vec![Selector::new().class("box")],
        vec![
            Property::Margin(Length::Pixels(5)),
            Property::Padding(Length::Pixels(9)),
            Property::PaddingLeft(Length::Pixels(7)),
        ],
    )]);
    style.restyle(&h, e, 0);
    assert_eq!(style.get_margin_left(e), Length::Pixels(5));
    assert_eq!(style.get_margin_right(e), Length::Pixels(5));
    assert_eq!(style.get_margin_top(e), Length::Pixels(5));
    assert_eq!(style.get_margin_bottom(e), Length::Pixels(5));
    // the later directional assignment overrides the shorthand
    assert_eq!(style.get_padding_left(e), Length::Pixels(7));
    assert_eq!(style.get_padding_right(e), Length::Pixels(9));
    assert_eq!(style.get_padding_top(e), Length::Pixels(9));
    assert_eq!(style.get_padding_bottom(e), Length::Pixels(9));
}

#[test]
fn shorthand_after_directional_wins() {
    let mut style = Style::new();
    let mut h = Hierarchy::new();
    let e = h.create(Entity::null());
    style.add(e);
    style.insert_class(e, "box");
    style.load_theme(vec![rule(
        vec![Selector::new().class("box")],
        vec![
            Property::PaddingLeft(Length::Pixels(7)),
            Property::Padding(Length::Pixels(9)),
        ],
    )]);
    style.restyle(&h, e, 0);
    assert_eq!(style.get_padding_left(e), Length::Pixels(9));
}

#[test]
fn programmatic_rule_joins_at_next_load() {
    let mut style = Style::new();
    let mut h = Hierarchy::new();
    let e = h.create(Entity::null());
    style.add(e);
    style.insert_class(e, "row");
    style.insert_style_rule(StyleRule {
        selectors: vec![Selector::new().class("row")],
        properties: vec![Property::Top(Length::Pixels(33))],
    });
    style.load_theme(vec![]);
    style.restyle(&h, e, 0);
    assert_eq!(style.get_top(e), Length::Pixels(33));
}

#[test]
fn unmatched_entity_falls_back_to_default() {
    let mut style = Style::new();
    let mut h = Hierarchy::new();
    let e = h.create(Entity::null());
    style.add(e);
    style.load_theme(vec![rule(
        vec![Selector::new().class("row")],
        vec![Property::Width(Length::Pixels(100))],
    )]);
    style.restyle(&h, e, 0);
    assert_eq!(style.get_width(e), Length::Auto);
}

#[test]
fn universal_rule_matches_all_entities() {
    let mut star = Selector::new();
    star.asterisk = true;
    let mut style = Style::new();
    let mut h = Hierarchy::new();
    let e = h.create(Entity::null());
    style.add(e);
    style.load_theme(vec![rule(
        vec![star],
        vec![Property::Visibility(stylecore::Visibility::Invisible)],
    )]);
    style.restyle(&h, e, 0);
    assert_eq!(style.get_visibility(e), stylecore::Visibility::Invisible);
}

#[test]
fn element_and_id_profiles_match() {
    let mut style = Style::new();
    let mut h = Hierarchy::new();
    let e = h.create(Entity::null());
    style.add(e);
    style.insert_element(e, "button");
    style.insert_id(e, "ok");
    style.load_theme(vec![
        rule(
            vec![Selector::from("button")],
            vec![Property::Height(Length::Pixels(30))],
        ),
        rule(
            vec![Selector::new().id("ok")],
            vec![Property::Left(Length::Pixels(3))],
        ),
    ]);
    style.restyle(&h, e, 0);
    assert_eq!(style.get_height(e), Length::Pixels(30));
    assert_eq!(style.get_left(e), Length::Pixels(3));
}

#[test]
fn pseudo_class_rule_matches_or_semantics() {
    let mut hover_sel = Selector::new().class("btn");
    let mut pc = stylecore::PseudoClasses::new();
    pc.set_hover(true);
    hover_sel.pseudo_classes = pc;
    let mut style = Style::new();
    let mut h = Hierarchy::new();
    let e = h.create(Entity::null());
    style.add(e);
    style.insert_class(e, "btn");
    style.load_theme(vec![rule(
        vec![hover_sel],
        vec![Property::Opacity(stylecore::Opacity(500))],
    )]);
    // hovered and focused at once: still matches
    let mut flags = stylecore::PseudoClasses::new();
    flags.set_hover(true);
    flags.set_focus(true);
    style.set_pseudo_classes(e, flags);
    style.restyle(&h, e, 0);
    assert_eq!(style.get_opacity(e), stylecore::Opacity(500));
    // focused only: no longer matches
    let mut flags = stylecore::PseudoClasses::new();
    flags.set_focus(true);
    style.set_pseudo_classes(e, flags);
    style.restyle(&h, e, 0);
    assert_eq!(style.get_opacity(e), stylecore::Opacity(1000));
}

#[test]
fn theme_reload_replaces_rules_wholesale() {
    let mut style = Style::new();
    let mut h = Hierarchy::new();
    let e = h.create(Entity::null());
    style.add(e);
    style.insert_class(e, "row");
    style.load_theme(vec![rule(
        vec![Selector::new().class("row")],
        vec![Property::Width(Length::Pixels(100))],
    )]);
    style.restyle(&h, e, 0);
    assert_eq!(style.get_width(e), Length::Pixels(100));
    style.load_theme(vec![rule(
        vec![Selector::new().class("row")],
        vec![Property::Height(Length::Pixels(60))],
    )]);
    style.restyle(&h, e, 0);
    assert_eq!(style.get_width(e), Length::Auto);
    assert_eq!(style.get_height(e), Length::Pixels(60));
}

#[test]
fn operations_on_null_entity_are_noops() {
    let mut style = Style::new();
    let e = Entity::null();
    style.add(e);
    style.insert_class(e, "row");
    style.set_width(e, Length::Pixels(5));
    assert_eq!(style.get_width(e), Length::Auto);
}
