use stylecore::{
    AnimationState, Color, Dropdown, Entity, Hierarchy, Item, Length, Opacity, Property, Selector,
    Style, StyleRule, Transition,
};

fn styled_entity(style: &mut Style, h: &mut Hierarchy) -> Entity {
    let e = h.create(Entity::null());
    style.add(e);
    e
}

#[test]
fn explicit_play_interpolates_endpoints_exactly() {
    // duration 1.0s, delay 0, keyframes [(0, A), (1, B)]: A at t0, the
    // exact componentwise average at t0 + 0.5s, exactly B at t0 + 1.0s
    // and thereafter
    let mut style = Style::new();
    let mut h = Hierarchy::new();
    let e = styled_entity(&mut style, &mut h);
    let anim = AnimationState::new()
        .with_duration(1000)
        .with_delay(0)
        .with_keyframe((0, Opacity(0)))
        .with_keyframe((1000, Opacity(1000)));
    let id = style.opacity.insert_animation(anim);
    let t0: u64 = 10_000;
    style.opacity.play_animation(e, id, t0);
    style.tick(t0);
    assert_eq!(style.get_opacity(e), Opacity(0));
    style.tick(t0 + 500);
    assert_eq!(style.get_opacity(e), Opacity(500));
    // ticking twice at the same time is idempotent
    style.tick(t0 + 500);
    assert_eq!(style.get_opacity(e), Opacity(500));
    style.tick(t0 + 1000);
    assert_eq!(style.get_opacity(e), Opacity(1000));
    style.tick(t0 + 5000);
    assert_eq!(style.get_opacity(e), Opacity(1000));
}

#[test]
fn colors_interpolate_componentwise() {
    let mut style = Style::new();
    let mut h = Hierarchy::new();
    let e = styled_entity(&mut style, &mut h);
    let anim = AnimationState::new()
        .with_duration(1000)
        .with_keyframe((0, Color::rgb(0, 100, 200)))
        .with_keyframe((1000, Color::rgb(100, 0, 250)));
    let id = style.background_color.insert_animation(anim);
    style.background_color.play_animation(e, id, 0);
    style.tick(500);
    assert_eq!(style.get_background_color(e), Color::rgb(50, 50, 225));
}

#[test]
fn delay_pins_at_first_keyframe() {
    let mut style = Style::new();
    let mut h = Hierarchy::new();
    let e = styled_entity(&mut style, &mut h);
    let anim = AnimationState::new()
        .with_duration(1000)
        .with_delay(300)
        .with_keyframe((0, Opacity(200)))
        .with_keyframe((1000, Opacity(800)));
    let id = style.opacity.insert_animation(anim);
    style.opacity.play_animation(e, id, 1000);
    style.tick(1200);
    assert_eq!(style.get_opacity(e), Opacity(200));
    style.tick(1300);
    assert_eq!(style.get_opacity(e), Opacity(200));
    style.tick(1800);
    assert_eq!(style.get_opacity(e), Opacity(500));
}

#[test]
fn interrupting_restarts_from_interpolated_value() {
    // interrupting an in-flight transition at 50% with a new target
    // starts the new transition from the 50% value, not from the original
    // start
    let mut style = Style::new();
    let mut h = Hierarchy::new();
    let e = styled_entity(&mut style, &mut h);
    let first = AnimationState::new()
        .with_duration(1000)
        .with_keyframe((0, Opacity(0)))
        .with_keyframe((1000, Opacity(1000)));
    let second = AnimationState::new()
        .with_duration(1000)
        .with_keyframe((0, Opacity(0)))
        .with_keyframe((1000, Opacity(250)));
    let a1 = style.opacity.insert_animation(first);
    let a2 = style.opacity.insert_animation(second);
    style.opacity.play_animation(e, a1, 0);
    style.tick(500);
    assert_eq!(style.get_opacity(e), Opacity(500));
    // interrupt: the new transition captures 500 as its start, so the new
    // first keyframe value 0 is never shown
    style.opacity.play_animation(e, a2, 500);
    style.tick(500);
    assert_eq!(style.get_opacity(e), Opacity(500));
    // halfway towards the new target 250: 500 - 125 = 375
    style.tick(1000);
    assert_eq!(style.get_opacity(e), Opacity(375));
    style.tick(1500);
    assert_eq!(style.get_opacity(e), Opacity(250));
}

#[test]
fn intermediate_keyframes_shape_the_curve() {
    let mut style = Style::new();
    let mut h = Hierarchy::new();
    let e = styled_entity(&mut style, &mut h);
    let anim = AnimationState::new()
        .with_duration(1000)
        .with_keyframe((0, Length::Pixels(0)))
        .with_keyframe((500, Length::Pixels(100)))
        .with_keyframe((1000, Length::Pixels(0)));
    let id = style.left.insert_animation(anim);
    style.left.play_animation(e, id, 0);
    style.tick(250);
    assert_eq!(style.get_left(e), Length::Pixels(50));
    style.tick(500);
    assert_eq!(style.get_left(e), Length::Pixels(100));
    style.tick(750);
    assert_eq!(style.get_left(e), Length::Pixels(50));
}

#[test]
fn unplayable_template_is_ignored() {
    let mut style = Style::new();
    let mut h = Hierarchy::new();
    let e = styled_entity(&mut style, &mut h);
    // missing the end keyframe: not playable, so the play request is a
    // no-op and the value stays put
    let anim = AnimationState::new().with_duration(1000).with_keyframe((0, Opacity(0)));
    let id = style.opacity.insert_animation(anim);
    style.opacity.play_animation(e, id, 0);
    style.tick(500);
    assert_eq!(style.get_opacity(e), Opacity(1000));
    // and an unknown animation id is a no-op too
    style.opacity.play_animation(e, 999, 0);
    style.tick(600);
    assert_eq!(style.get_opacity(e), Opacity(1000));
}

#[test]
fn stylesheet_transition_animates_cascade_change() {
    // a `transition: width 1s 0s;` declaration on the winning rule makes
    // a new cascade target animate from the old displayed value
    let base = StyleRule {
        selectors: vec![Selector::new().class("box")],
        properties: vec![Property::Width(Length::Pixels(100))],
    };
    let wide = StyleRule {
        selectors: vec![Selector::new().class("box").class("wide")],
        properties: vec![
            Property::Width(Length::Pixels(200)),
            Property::Transition(vec![Transition {
                property: String::from("width"),
                duration_ms: 1000,
                delay_ms: 0,
            }]),
        ],
    };
    let mut style = Style::new();
    let mut h = Hierarchy::new();
    let e = styled_entity(&mut style, &mut h);
    style.insert_class(e, "box");
    style.load_theme(vec![base, wide]);
    style.restyle(&h, e, 0);
    assert_eq!(style.get_width(e), Length::Pixels(100));
    style.insert_class(e, "wide");
    style.restyle(&h, e, 2000);
    style.tick(2000);
    assert_eq!(style.get_width(e), Length::Pixels(100));
    style.tick(2500);
    assert_eq!(style.get_width(e), Length::Pixels(150));
    style.tick(3000);
    assert_eq!(style.get_width(e), Length::Pixels(200));
    // a repeated restyle with the same target does not restart the clock
    style.restyle(&h, e, 3100);
    style.tick(3200);
    assert_eq!(style.get_width(e), Length::Pixels(200));
}

#[test]
fn removing_entity_stops_its_transition() {
    let mut style = Style::new();
    let mut h = Hierarchy::new();
    let e = styled_entity(&mut style, &mut h);
    let anim = AnimationState::new()
        .with_duration(1000)
        .with_keyframe((0, Opacity(0)))
        .with_keyframe((1000, Opacity(1000)));
    let id = style.opacity.insert_animation(anim);
    style.opacity.play_animation(e, id, 0);
    style.tick(500);
    assert_eq!(style.get_opacity(e), Opacity(500));
    style.remove(e);
    assert_eq!(style.get_opacity(e), Opacity(1000));
}

#[test]
fn mismatched_length_kinds_switch_discretely() {
    let mut style = Style::new();
    let mut h = Hierarchy::new();
    let e = styled_entity(&mut style, &mut h);
    let anim = AnimationState::new()
        .with_duration(1000)
        .with_keyframe((0, Length::Pixels(40)))
        .with_keyframe((1000, Length::Percentage(500)));
    let id = style.width.insert_animation(anim);
    style.width.play_animation(e, id, 0);
    style.tick(400);
    assert_eq!(style.get_width(e), Length::Pixels(40));
    style.tick(1000);
    assert_eq!(style.get_width(e), Length::Percentage(500));
}

#[test]
fn dropdown_state_machine_toggles() {
    let mut d = Dropdown::new("choose");
    assert!(!d.open);
    assert_eq!(d.fade_in_animation, usize::MAX);
    assert!(d.wants_capture());
    let _ = d.on_capture();
    assert!(d.open);
    assert!(!d.wants_capture());
    let _ = d.on_capture_out();
    assert!(!d.open);
    d.open = true;
    d.on_select("picked");
    assert!(!d.open);
    assert_eq!(d.text, "picked");
}

#[test]
fn item_fires_only_after_arming_press() {
    let mut item = Item::new("label", "proxy");
    assert!(!item.release());
    item.press();
    assert!(item.release());
    assert!(!item.release());
    assert_eq!(item.text, "label");
    assert_eq!(item.proxy, "proxy");
    assert!(item.checkbox.is_null());
}
