//! A small event abstraction: records of completed operations that can be
//! held and inspected through one uniform capability.
pub mod event;

pub use event::{
    file_read_label, lemma_category_by_shape, lemma_mismatch_is_no_match, lemma_round_trip,
    network_label, AnyEvent, Event, EventRef, FileReadEvent, NetworkEvent,
};
