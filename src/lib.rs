//! A cyclic producer that suspends while its contents are empty, and a
//! Fibonacci generator.

pub mod fib;
pub mod signal;
pub mod signal_lemmas;
