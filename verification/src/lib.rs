//! The discrete core of a small 2D particle engine.
//!
//! A simulation is made of point masses joined by distance constraints, and
//! of behaviours that hang on the points. This library holds everything about
//! it that is decided rather than computed: which points a constraint joins
//! and how both are borrowed from one collection, what a relaxation or the
//! resolution of a contact may change, which pairs a frame tests for contact,
//! in what order a frame does its work, which points and constraints a shape
//! is made of, and how the widgets of the user interface take their input.
//!
//! Numbers are not this library's business. A scene keeps each point's
//! position and velocity as values of a type of the caller's and never looks
//! into them. The caller measures, hands the outcome of each measurement in
//! as a plain value, and is handed back just the parts that the step at hand
//! may write to.

pub mod basics;
pub mod guarantees;
pub mod objects;
pub mod scene;
pub mod simulation;
pub mod utils;
