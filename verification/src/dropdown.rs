use vstd::prelude::*;

use crate::entity::Entity;

verus! {

/// Message a dropdown item sends up when chosen: the item's text and the
/// proxy text the header should show.
#[derive(Clone, Debug)]
pub enum DropdownEvent {
    SetText(String, String),
}

/// One selectable row of a dropdown: its checkbox entity, its label, the
/// proxy text it stands for, and whether a press started on it.
pub struct Item {
    pub checkbox: Entity,
    pub text: String,
    pub proxy: String,
    pub pressed: bool,
}

impl Item {
    pub fn new(txt: &str, proxy: &str) -> (r: Item)
        ensures
            r.checkbox.spec_is_null(),
            r.text@ == txt@,
            r.proxy@ == proxy@,
            !r.pressed,
    {
        Item {
            checkbox: Entity::null(),
            text: txt.to_owned(),
            proxy: proxy.to_owned(),
            pressed: false,
        }
    }

    /// A primary press landed on this item: arm it.
    pub fn press(&mut self)
        ensures
            *final(self) == (Item { pressed: true, ..*old(self) }),
    {
        self.pressed = true;
    }

    /// A primary release: the item fires its selection exactly when a
    /// press armed it, and disarms either way.
    pub fn release(&mut self) -> (fired: bool)
        ensures
            fired == old(self).pressed,
            *final(self) == (Item { pressed: false, ..*old(self) }),
    {
        let fired = self.pressed;
        self.pressed = false;
        fired
    }
}

/// A dropdown widget's retained state: its container and header entities,
/// its header text, whether it is open, and the ids of the animations it
/// plays when opening and closing.
pub struct Dropdown {
    pub container: Entity,
    pub header: Entity,
    pub text: String,
    pub open: bool,
    pub expand_animation: usize,
    pub fade_in_animation: usize,
    pub collapse_animation: usize,
    pub fade_out_animation: usize,
}

impl Dropdown {
    pub fn new(text: &str) -> (r: Dropdown)
        ensures
            r.container.spec_is_null(),
            r.header.spec_is_null(),
            r.text@ == text@,
            !r.open,
            r.expand_animation == usize::MAX,
            r.fade_in_animation == usize::MAX,
            r.collapse_animation == usize::MAX,
            r.fade_out_animation == usize::MAX,
    {
        Dropdown {
            container: Entity::null(),
            header: Entity::null(),
            text: text.to_owned(),
            open: false,
            expand_animation: usize::MAX,
            fade_in_animation: usize::MAX,
            collapse_animation: usize::MAX,
            fade_out_animation: usize::MAX,
        }
    }

    /// The dropdown gained mouse capture: it opens, and the caller plays
    /// the returned fade-in animation on the container.
    pub fn on_capture(&mut self) -> (anim: usize)
        ensures
            final(self).open,
            *final(self) == (Dropdown { open: true, ..*old(self) }),
            anim == old(self).fade_in_animation,
    {
        self.open = true;
        self.fade_in_animation
    }

    /// The dropdown lost mouse capture: it closes, and the caller plays
    /// the returned fade-out animation on the container.
    pub fn on_capture_out(&mut self) -> (anim: usize)
        ensures
            !final(self).open,
            *final(self) == (Dropdown { open: false, ..*old(self) }),
            anim == old(self).fade_out_animation,
    {
        self.open = false;
        self.fade_out_animation
    }

    /// An item was chosen: close and adopt the proxy text for the header.
    pub fn on_select(&mut self, proxy: &str)
        ensures
            !final(self).open,
            final(self).text@ == proxy@,
            final(self).container == old(self).container,
            final(self).header == old(self).header,
            final(self).expand_animation == old(self).expand_animation,
            final(self).fade_in_animation == old(self).fade_in_animation,
            final(self).collapse_animation == old(self).collapse_animation,
            final(self).fade_out_animation == old(self).fade_out_animation,
    {
        self.text = proxy.to_owned();
        self.open = false;
    }

    /// A primary release on the header toggles between capturing (to
    /// open) and releasing (to close); the caller captures the mouse
    /// exactly when this returns true.
    pub fn wants_capture(&self) -> (capture: bool)
        ensures
            capture == !self.open,
    {
        !self.open
    }
}

} // verus!
