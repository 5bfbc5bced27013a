//! A directory-watching bridge: it keeps a registry of watched paths,
//! encodes raw file-system notifications into timestamped structured
//! events, serializes them to a JSON wire form, and models the bounded
//! queue and single delivery worker that hand each event to a consumer
//! callback exactly once, in arrival order.

mod codec;
mod facade;
mod pipeline;
mod queue;
mod registry;

pub use codec::FsEvent;
pub use codec::FsEventKind;
pub use codec::NotifyEvent;
pub use codec::Timestamp;
pub use codec::convert_event;
pub use codec::encode_at;
pub use facade::DEFAULT_QUEUE_CAPACITY;
pub use facade::DirectoryWatcher;
pub use facade::UnwatchError;
pub use facade::WatchError;
pub use facade::lemma_watcher_delivery_order;
pub use facade::lemma_watcher_drained_delivers_all;
pub use pipeline::EventPipeline;
pub use pipeline::MechanismError;
pub use pipeline::PumpOutcome;
pub use pipeline::WorkerState;
pub use pipeline::lemma_delivered_prefix_of_enqueued;
pub use pipeline::lemma_dispatch_serialized;
pub use pipeline::lemma_drained_delivers_all;
pub use queue::BoundedQueue;
pub use registry::RegistryOp;
pub use registry::WatchRegistry;
pub use registry::lemma_registry_set_semantics;
pub use registry::lemma_watch_idempotent;
pub use registry::registry_after;
pub use registry::watched_and_kept;
