//! Style-resolution core of a retained-mode UI toolkit.
//!
//! Given a tree of UI entities and a declarative stylesheet (already parsed
//! into rules), this library determines, per entity and per visual property,
//! the effective value to use, and animates transitions between values over
//! time.
//!
//! The pieces, leaves first: [`specificity`] ranks rules; [`selector`]
//! matches one rule predicate against an entity profile; [`hierarchy`]
//! answers the parent and ancestor queries the combinators need; [`rule`]
//! and [`table`] turn a declared rule list into the cascade-ordered rule
//! table; [`storage`] holds one property's rule layer, inline overrides and
//! links; [`animation`] and [`animatable`] add keyframe interpolation and
//! the per-entity transition state machine; [`style`] is the facade that
//! ties them together; and [`laws`] proves the cascade's ordering,
//! determinism and round-trip properties.

pub mod animatable;
pub mod animation;
pub mod class_map;
pub mod dense;
pub mod dropdown;
pub mod entity;
pub mod hash;
pub mod hierarchy;
pub mod laws;
pub mod property;
pub mod pseudo;
pub mod rule;
pub mod selector;
pub mod specificity;
pub mod storage;
pub mod style;
pub mod table;

pub use animatable::AnimatableStorage;
pub use animation::{ActiveTransition, AnimationState, Interpolate};
pub use class_map::ClassMap;
pub use dense::DenseStorage;
pub use dropdown::{Dropdown, DropdownEvent, Item};
pub use entity::Entity;
pub use hierarchy::Hierarchy;
pub use property::{Color, Display, Length, Opacity, Property, Transition, Visibility};
pub use pseudo::PseudoClasses;
pub use rule::StyleRule;
pub use selector::{Relation, Selector};
pub use specificity::Specificity;
pub use style::Style;
pub use storage::{MatchedRule, PropertyStorage};
