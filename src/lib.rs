//! Lazily built, order-independent plugins for extensible types.
//!
//! A host that owns a [`Store`] can ask for any plugin type on demand: the
//! plugin is built from the host the first time it is asked for, kept in the
//! store, and handed out from there on every later request.
mod store;
mod plugin;

pub use store::{finds, held_count, holds_as, settle, stores, Store};

pub use plugin::{cached_request, lemma_refusal_not_remembered, lemma_served_stays_held, Extensible, Get, GetCached, PluginFor};
