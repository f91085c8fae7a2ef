//! Generic accessor abstractions: a value holder, a labeled value with an
//! optional numeric tag slot, a keyed collection of values, and a small
//! command dispatcher that exercises them.

pub mod demo;
pub mod iattribute;
pub mod idata;
pub mod ivariable;
pub mod text;
pub mod variable_util;
