//! What the operations are for, stated from the outside: what a result has to satisfy, over the inputs
//! and with every word, number and name written out.
pub mod calls;
pub mod failures;
pub mod messages;
pub mod reading;
pub mod registration;
pub mod strings;
pub mod told;
