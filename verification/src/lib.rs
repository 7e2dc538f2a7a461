//! Push-notification rules: the rule data model, the default ruleset of a
//! user, and the evaluation of a ruleset against a room event.
//!
//! A [`ruleset::Ruleset`] holds a user's rules in five kinds. Evaluating it
//! against an event goes through the kinds in a fixed order of priority and
//! through each kind in the order in which its rules were added; the first
//! rule that is enabled and applies decides, and its actions are resolved
//! into a [`action::Decision`]. Conditions never fail: what an event or its
//! room lacks makes a condition false, not an error.

pub mod action;
pub mod condition;
pub mod context;
pub mod event;
pub mod glob;
pub mod ident;
pub mod laws;
pub mod member_count;
pub mod predefined;
pub mod rule;
pub mod ruleset;
pub mod text;
