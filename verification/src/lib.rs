//! Contended-counter layouts and their benchmark driver, with verified
//! functional behaviour.
//!
//! Eight independent counters can be laid out in memory in three ways: packed
//! at natural alignment, packed but starting on a cache-line boundary, or with
//! every counter padded to a cache line of its own. The [`layout`] module
//! gives the byte-size and alignment arithmetic of the three policies; the
//! [`counters`] module gives the aggregates themselves behind the
//! [`counters::Atom`] capability; the [`driver`] module runs the
//! contended-write workload — one worker per counter, a fixed number of
//! stores each — and proves what every counter holds afterwards.

pub mod counters;
pub mod driver;
pub mod layout;
