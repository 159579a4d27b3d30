//! Guest side of a host/guest exchange protocol for extension points.
//!
//! A host invokes named entry points with an identifier. Each entry point
//! fetches the argument bytes for that identifier into a small fixed-size
//! transfer buffer, decodes them as text, delivers result bytes back under the
//! same identifier and returns a fixed status value.

mod buffer;
mod text;
mod host;
mod exchange;
pub mod entries;

pub use buffer::{TransferBuffer, CAPACITY, clipped, reported_length};
pub use text::DecodeError;
pub use host::{Channel, HostStore, payload_of, fetched, lemma_fetch_exact, lemma_fetch_truncates, lemma_delivery_round_trip};
pub use exchange::{Status, EntryPlan, Delivery, Reply, RESULT_TEXT, ADDRESS_NAME, planned, after_run, run_in, AddressSlot};
