//! Admission control for a single process: four rate limiters behind one
//! interface, each a small state machine over plain integers.
//!
//! A limiter decides, request by request, whether a unit of work may proceed.
//! Its state is advanced by two parties: callers asking for admission, and a
//! periodic maintenance activity that gives capacity back. Both act through
//! `&mut self`, so every step is indivisible; the caller that shares a limiter
//! between threads guards it with a lock and runs the maintenance loop, taking
//! from the limiter what to do on each turn.

pub mod limiter;
pub mod buckets;
pub mod windows;
pub mod simulation;
pub mod chart;
