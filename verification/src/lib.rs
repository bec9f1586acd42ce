//! Verified core of a 2D action-platformer player controller.
//!
//! The crate models the player's input pipeline (frames, bounded buffer,
//! blocking mask, query combinators) and the per-behavior state machines
//! (walk, jump, crouch, slide, kick, slash, shot) that share the player's
//! velocity, collider set and input stream. All quantities are fixed-point
//! integers: lengths and speeds in thousandths of a world unit, times in
//! microseconds, angles in hundredths of a degree. An embedding engine
//! supplies raw device state, clock readings and spatial-query outcomes as
//! plain values and applies the effects these functions return.

pub mod animation;
pub mod behavior;
pub mod blocker;
pub mod body;
pub mod buffer;
pub mod collision_groups;
pub mod crouch;
pub mod demo_slash;
pub mod directions;
pub mod facing_direction;
pub mod fixed;
pub mod geometry;
pub mod grounded;
pub mod input_frame;
pub mod input_query;
pub mod inputs;
pub mod jump;
pub mod kick;
pub mod shot;
pub mod slide;
pub mod timer;
pub mod walk;
