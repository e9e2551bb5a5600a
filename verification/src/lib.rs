//! A minimal sequential container: an ordered, resizable collection with
//! append, bulk append, tail removal, head removal, index removal and clear.

pub mod queue;
