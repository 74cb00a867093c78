//! Limiters that count admissions over a span of time: a counter that is
//! reset at every interval boundary, and a rolling log of admission times.

pub mod fixed;

pub mod sliding;
