//! Core of a tiny interactive shell: whitespace tokenization, a closed
//! builtin registry with capability-tagged handlers, builtin-vs-external
//! command classification, and the decision logic of a pseudo-terminal
//! execution session, stated and verified as a state machine over the
//! answers the operating system gives back.

pub mod shell;
