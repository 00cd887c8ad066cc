//! A small container launcher library: the decisions that start a command in
//! fresh namespaces, confine it to a control group and reap it afterwards.
//!
//! The kernel calls themselves are made by the caller; this crate decides
//! which call comes next, with which arguments, and what a result means.
#![allow(unused_imports)]

pub mod bytes;
pub mod command;
pub mod isolation;
pub mod sys;
