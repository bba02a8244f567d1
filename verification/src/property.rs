use vstd::prelude::*;

verus! {

/// Whether an entity takes part in layout at all.
#[derive(Clone, Copy, PartialEq, Eq, Structural, Debug)]
pub enum Display {
    Flex,
    Hidden,
}

/// Whether an entity is drawn; an invisible entity still takes up space.
#[derive(Clone, Copy, PartialEq, Eq, Structural, Debug)]
pub enum Visibility {
    Visible,
    Invisible,
}

/// A size or offset: automatic, whole pixels, or a fraction of the parent
/// in thousandths (so 1000 stands for the full parent extent).
#[derive(Clone, Copy, PartialEq, Eq, Structural, Debug)]
pub enum Length {
    Auto,
    Pixels(i32),
    Percentage(u32),
}

/// An RGBA color, one byte per channel.
#[derive(Clone, Copy, PartialEq, Eq, Structural, Debug)]
pub struct Color {
    pub r: u8,
    pub g: u8,
    pub b: u8,
    pub a: u8,
}

impl Color {
    /// Fully opaque color from its three channels.
    pub fn rgb(r: u8, g: u8, b: u8) -> (c: Color)
        ensures
            c == (Color { r, g, b, a: 255u8 }),
    {
        Color { r, g, b, a: 255 }
    }

    pub fn rgba(r: u8, g: u8, b: u8, a: u8) -> (c: Color)
        ensures
            c == (Color { r, g, b, a }),
    {
        Color { r, g, b, a }
    }

    /// Fully transparent black: the default for color properties.
    pub fn transparent() -> (c: Color)
        ensures
            c == (Color { r: 0u8, g: 0u8, b: 0u8, a: 0u8 }),
    {
        Color { r: 0, g: 0, b: 0, a: 0 }
    }
}

/// Opacity in thousandths: 0 is fully transparent, 1000 fully opaque.
#[derive(Clone, Copy, PartialEq, Eq, Structural, Debug)]
pub struct Opacity(pub u16);

/// A `transition` declaration attached to a rule: which property to
/// animate and the timing, in milliseconds.
#[derive(Clone, Debug)]
pub struct Transition {
    pub property: String,
    pub duration_ms: u64,
    pub delay_ms: u64,
}

/// One property assignment inside a rule's declaration block.
///
/// `Margin` and `Padding` are the shorthand forms: ingestion expands each
/// into its four directional properties.
#[derive(Clone, Debug)]
pub enum Property {
    Display(Display),
    Visibility(Visibility),
    Opacity(Opacity),
    Left(Length),
    Top(Length),
    Width(Length),
    Height(Length),
    Margin(Length),
    MarginLeft(Length),
    MarginRight(Length),
    MarginTop(Length),
    MarginBottom(Length),
    Padding(Length),
    PaddingLeft(Length),
    PaddingRight(Length),
    PaddingTop(Length),
    PaddingBottom(Length),
    BackgroundColor(Color),
    FontColor(Color),
    Transition(Vec<Transition>),
}

/// The value the last `display` assignment in a declaration block gives,
/// if any: within one rule a later assignment overrides an earlier one.
pub open spec fn spec_prop_display(props: Seq<Property>) -> Option<Display>
    decreases props.len(),
{
    if props.len() == 0 {
        None
    } else {
        match props.last() {
            Property::Display(v) => Some(v),
            _ => spec_prop_display(props.drop_last()),
        }
    }
}

pub open spec fn spec_prop_visibility(props: Seq<Property>) -> Option<Visibility>
    decreases props.len(),
{
    if props.len() == 0 {
        None
    } else {
        match props.last() {
            Property::Visibility(v) => Some(v),
            _ => spec_prop_visibility(props.drop_last()),
        }
    }
}

pub open spec fn spec_prop_opacity(props: Seq<Property>) -> Option<Opacity>
    decreases props.len(),
{
    if props.len() == 0 {
        None
    } else {
        match props.last() {
            Property::Opacity(v) => Some(v),
            _ => spec_prop_opacity(props.drop_last()),
        }
    }
}

pub open spec fn spec_prop_left(props: Seq<Property>) -> Option<Length>
    decreases props.len(),
{
    if props.len() == 0 {
        None
    } else {
        match props.last() {
            Property::Left(v) => Some(v),
            _ => spec_prop_left(props.drop_last()),
        }
    }
}

pub open spec fn spec_prop_top(props: Seq<Property>) -> Option<Length>
    decreases props.len(),
{
    if props.len() == 0 {
        None
    } else {
        match props.last() {
            Property::Top(v) => Some(v),
            _ => spec_prop_top(props.drop_last()),
        }
    }
}

pub open spec fn spec_prop_width(props: Seq<Property>) -> Option<Length>
    decreases props.len(),
{
    if props.len() == 0 {
        None
    } else {
        match props.last() {
            Property::Width(v) => Some(v),
            _ => spec_prop_width(props.drop_last()),
        }
    }
}

pub open spec fn spec_prop_height(props: Seq<Property>) -> Option<Length>
    decreases props.len(),
{
    if props.len() == 0 {
        None
    } else {
        match props.last() {
            Property::Height(v) => Some(v),
            _ => spec_prop_height(props.drop_last()),
        }
    }
}

/// The directional margin properties also answer to the `margin`
/// shorthand, whichever assignment comes last.
pub open spec fn spec_prop_margin_left(props: Seq<Property>) -> Option<Length>
    decreases props.len(),
{
    if props.len() == 0 {
        None
    } else {
        match props.last() {
            Property::MarginLeft(v) => Some(v),
            Property::Margin(v) => Some(v),
            _ => spec_prop_margin_left(props.drop_last()),
        }
    }
}

pub open spec fn spec_prop_margin_right(props: Seq<Property>) -> Option<Length>
    decreases props.len(),
{
    if props.len() == 0 {
        None
    } else {
        match props.last() {
            Property::MarginRight(v) => Some(v),
            Property::Margin(v) => Some(v),
            _ => spec_prop_margin_right(props.drop_last()),
        }
    }
}

pub open spec fn spec_prop_margin_top(props: Seq<Property>) -> Option<Length>
    decreases props.len(),
{
    if props.len() == 0 {
        None
    } else {
        match props.last() {
            Property::MarginTop(v) => Some(v),
            Property::Margin(v) => Some(v),
            _ => spec_prop_margin_top(props.drop_last()),
        }
    }
}

pub open spec fn spec_prop_margin_bottom(props: Seq<Property>) -> Option<Length>
    decreases props.len(),
{
    if props.len() == 0 {
        None
    } else {
        match props.last() {
            Property::MarginBottom(v) => Some(v),
            Property::Margin(v) => Some(v),
            _ => spec_prop_margin_bottom(props.drop_last()),
        }
    }
}

pub open spec fn spec_prop_padding_left(props: Seq<Property>) -> Option<Length>
    decreases props.len(),
{
    if props.len() == 0 {
        None
    } else {
        match props.last() {
            Property::PaddingLeft(v) => Some(v),
            Property::Padding(v) => Some(v),
            _ => spec_prop_padding_left(props.drop_last()),
        }
    }
}

pub open spec fn spec_prop_padding_right(props: Seq<Property>) -> Option<Length>
    decreases props.len(),
{
    if props.len() == 0 {
        None
    } else {
        match props.last() {
            Property::PaddingRight(v) => Some(v),
            Property::Padding(v) => Some(v),
            _ => spec_prop_padding_right(props.drop_last()),
        }
    }
}

pub open spec fn spec_prop_padding_top(props: Seq<Property>) -> Option<Length>
    decreases props.len(),
{
    if props.len() == 0 {
        None
    } else {
        match props.last() {
            Property::PaddingTop(v) => Some(v),
            Property::Padding(v) => Some(v),
            _ => spec_prop_padding_top(props.drop_last()),
        }
    }
}

pub open spec fn spec_prop_padding_bottom(props: Seq<Property>) -> Option<Length>
    decreases props.len(),
{
    if props.len() == 0 {
        None
    } else {
        match props.last() {
            Property::PaddingBottom(v) => Some(v),
            Property::Padding(v) => Some(v),
            _ => spec_prop_padding_bottom(props.drop_last()),
        }
    }
}

pub open spec fn spec_prop_background_color(props: Seq<Property>) -> Option<Color>
    decreases props.len(),
{
    if props.len() == 0 {
        None
    } else {
        match props.last() {
            Property::BackgroundColor(v) => Some(v),
            _ => spec_prop_background_color(props.drop_last()),
        }
    }
}

pub open spec fn spec_prop_font_color(props: Seq<Property>) -> Option<Color>
    decreases props.len(),
{
    if props.len() == 0 {
        None
    } else {
        match props.last() {
            Property::FontColor(v) => Some(v),
            _ => spec_prop_font_color(props.drop_last()),
        }
    }
}

/// The timing the last `transition` declaration for property `name`
/// gives, if any: `(duration, delay)` in milliseconds.
pub open spec fn spec_transition_for(ts: Seq<Transition>, name: Seq<char>) -> Option<(u64, u64)>
    decreases ts.len(),
{
    if ts.len() == 0 {
        None
    } else if ts.last().property@ == name {
        Some((ts.last().duration_ms, ts.last().delay_ms))
    } else {
        spec_transition_for(ts.drop_last(), name)
    }
}

pub open spec fn spec_prop_transition(props: Seq<Property>, name: Seq<char>) -> Option<(u64, u64)>
    decreases props.len(),
{
    if props.len() == 0 {
        None
    } else {
        match props.last() {
            Property::Transition(ts) => match spec_transition_for(ts@, name) {
                Some(t) => Some(t),
                None => spec_prop_transition(props.drop_last(), name),
            },
            _ => spec_prop_transition(props.drop_last(), name),
        }
    }
}

} // verus!
