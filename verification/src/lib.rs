//! A small verified library built around a growable, contiguous container.
//!
//! The centrepiece is [`growable::MyVec`], an appendable sequence with a
//! capacity/length distinction and a doubling growth policy, specified
//! against a mathematical sequence view. The remaining modules hold small
//! verified helpers: integer arithmetic in [`arith`], a rectangle type in
//! [`rectangle`], and text utilities in [`strings`].

pub mod arith;
pub mod growable;
pub mod rectangle;
pub mod strings;
