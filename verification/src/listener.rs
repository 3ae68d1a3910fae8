//! Listener configuration: which status events of an entity have a handler
//! attached. A handler is recorded as a token; the runtime layer that drives
//! the middleware maps each token to the routine to invoke, since the
//! configuration itself never calls anything.

use vstd::prelude::*;

verus! {

/// Names one handler routine registered with the runtime layer.
#[derive(Clone, Copy, Debug, PartialEq, Eq, Structural, Hash)]
pub struct CallbackToken {
    pub id: u32,
}

/// Handlers for the status events of a topic. Every handler starts
/// unset; each `with_` builder attaches one.
#[derive(Clone, Copy, Debug, PartialEq, Eq, Structural)]
pub struct TopicListener {
    pub inconsistent_topic: Option<CallbackToken>,
}

impl TopicListener {
    /// A listener with no handler attached.
    pub fn new() -> (r: Self)
        ensures
            r.inconsistent_topic is None,
    {
        TopicListener { inconsistent_topic: None }
    }

    /// Attach a handler for the `inconsistent_topic` status.
    pub fn with_inconsistent_topic(self, callback: CallbackToken) -> (r: Self)
        ensures
            r.inconsistent_topic == Some(callback),
    {
        TopicListener { inconsistent_topic: Some(callback) }
    }
}

impl Default for TopicListener {
    fn default() -> (r: Self)
        ensures
            r.inconsistent_topic is None,
    {
        TopicListener::new()
    }
}

/// Handlers for the status events of a subscriber. Every handler starts
/// unset; each `with_` builder attaches one.
#[derive(Clone, Copy, Debug, PartialEq, Eq, Structural)]
pub struct SubscriberListener {
    pub data_on_readers: Option<CallbackToken>,
}

impl SubscriberListener {
    /// A listener with no handler attached.
    pub fn new() -> (r: Self)
        ensures
            r.data_on_readers is None,
    {
        SubscriberListener { data_on_readers: None }
    }

    /// Attach a handler for the `data_on_readers` status.
    pub fn with_data_on_readers(self, callback: CallbackToken) -> (r: Self)
        ensures
            r.data_on_readers == Some(callback),
    {
        SubscriberListener { data_on_readers: Some(callback) }
    }
}

impl Default for SubscriberListener {
    fn default() -> (r: Self)
        ensures
            r.data_on_readers is None,
    {
        SubscriberListener::new()
    }
}

/// Handlers for the status events of a publisher. Every handler starts
/// unset; each `with_` builder attaches one.
#[derive(Clone, Copy, Debug, PartialEq, Eq, Structural)]
pub struct PublisherListener {}

impl PublisherListener {
    /// A listener with no handler attached.
    pub fn new() -> (r: Self)
        ensures
            true,
    {
        PublisherListener {  }
    }

}

impl Default for PublisherListener {
    fn default() -> (r: Self)
        ensures
            true,
    {
        PublisherListener::new()
    }
}

/// Handlers for the status events of a reader. Every handler starts
/// unset; each `with_` builder attaches one.
#[derive(Clone, Copy, Debug, PartialEq, Eq, Structural)]
pub struct ReaderListener {
    pub sample_lost: Option<CallbackToken>,
    pub data_available: Option<CallbackToken>,
    pub sample_rejected: Option<CallbackToken>,
    pub liveliness_changed: Option<CallbackToken>,
    pub requested_deadline_missed: Option<CallbackToken>,
    pub requested_incompatible_qos: Option<CallbackToken>,
    pub subscription_matched: Option<CallbackToken>,
}

impl ReaderListener {
    /// A listener with no handler attached.
    pub fn new() -> (r: Self)
        ensures
            r.sample_lost is None,
            r.data_available is None,
            r.sample_rejected is None,
            r.liveliness_changed is None,
            r.requested_deadline_missed is None,
            r.requested_incompatible_qos is None,
            r.subscription_matched is None,
    {
        ReaderListener { sample_lost: None, data_available: None, sample_rejected: None, liveliness_changed: None, requested_deadline_missed: None, requested_incompatible_qos: None, subscription_matched: None }
    }

    /// Attach a handler for the `sample_lost` status.
    pub fn with_sample_lost(self, callback: CallbackToken) -> (r: Self)
        ensures
            r.sample_lost == Some(callback),
            r.data_available == self.data_available,
            r.sample_rejected == self.sample_rejected,
            r.liveliness_changed == self.liveliness_changed,
            r.requested_deadline_missed == self.requested_deadline_missed,
            r.requested_incompatible_qos == self.requested_incompatible_qos,
            r.subscription_matched == self.subscription_matched,
    {
        ReaderListener { sample_lost: Some(callback), data_available: self.data_available, sample_rejected: self.sample_rejected, liveliness_changed: self.liveliness_changed, requested_deadline_missed: self.requested_deadline_missed, requested_incompatible_qos: self.requested_incompatible_qos, subscription_matched: self.subscription_matched }
    }

    /// Attach a handler for the `data_available` status.
    pub fn with_data_available(self, callback: CallbackToken) -> (r: Self)
        ensures
            r.data_available == Some(callback),
            r.sample_lost == self.sample_lost,
            r.sample_rejected == self.sample_rejected,
            r.liveliness_changed == self.liveliness_changed,
            r.requested_deadline_missed == self.requested_deadline_missed,
            r.requested_incompatible_qos == self.requested_incompatible_qos,
            r.subscription_matched == self.subscription_matched,
    {
        ReaderListener { data_available: Some(callback), sample_lost: self.sample_lost, sample_rejected: self.sample_rejected, liveliness_changed: self.liveliness_changed, requested_deadline_missed: self.requested_deadline_missed, requested_incompatible_qos: self.requested_incompatible_qos, subscription_matched: self.subscription_matched }
    }

    /// Attach a handler for the `sample_rejected` status.
    pub fn with_sample_rejected(self, callback: CallbackToken) -> (r: Self)
        ensures
            r.sample_rejected == Some(callback),
            r.sample_lost == self.sample_lost,
            r.data_available == self.data_available,
            r.liveliness_changed == self.liveliness_changed,
            r.requested_deadline_missed == self.requested_deadline_missed,
            r.requested_incompatible_qos == self.requested_incompatible_qos,
            r.subscription_matched == self.subscription_matched,
    {
        ReaderListener { sample_rejected: Some(callback), sample_lost: self.sample_lost, data_available: self.data_available, liveliness_changed: self.liveliness_changed, requested_deadline_missed: self.requested_deadline_missed, requested_incompatible_qos: self.requested_incompatible_qos, subscription_matched: self.subscription_matched }
    }

    /// Attach a handler for the `liveliness_changed` status.
    pub fn with_liveliness_changed(self, callback: CallbackToken) -> (r: Self)
        ensures
            r.liveliness_changed == Some(callback),
            r.sample_lost == self.sample_lost,
            r.data_available == self.data_available,
            r.sample_rejected == self.sample_rejected,
            r.requested_deadline_missed == self.requested_deadline_missed,
            r.requested_incompatible_qos == self.requested_incompatible_qos,
            r.subscription_matched == self.subscription_matched,
    {
        ReaderListener { liveliness_changed: Some(callback), sample_lost: self.sample_lost, data_available: self.data_available, sample_rejected: self.sample_rejected, requested_deadline_missed: self.requested_deadline_missed, requested_incompatible_qos: self.requested_incompatible_qos, subscription_matched: self.subscription_matched }
    }

    /// Attach a handler for the `requested_deadline_missed` status.
    pub fn with_requested_deadline_missed(self, callback: CallbackToken) -> (r: Self)
        ensures
            r.requested_deadline_missed == Some(callback),
            r.sample_lost == self.sample_lost,
            r.data_available == self.data_available,
            r.sample_rejected == self.sample_rejected,
            r.liveliness_changed == self.liveliness_changed,
            r.requested_incompatible_qos == self.requested_incompatible_qos,
            r.subscription_matched == self.subscription_matched,
    {
        ReaderListener { requested_deadline_missed: Some(callback), sample_lost: self.sample_lost, data_available: self.data_available, sample_rejected: self.sample_rejected, liveliness_changed: self.liveliness_changed, requested_incompatible_qos: self.requested_incompatible_qos, subscription_matched: self.subscription_matched }
    }

    /// Attach a handler for the `requested_incompatible_qos` status.
    pub fn with_requested_incompatible_qos(self, callback: CallbackToken) -> (r: Self)
        ensures
            r.requested_incompatible_qos == Some(callback),
            r.sample_lost == self.sample_lost,
            r.data_available == self.data_available,
            r.sample_rejected == self.sample_rejected,
            r.liveliness_changed == self.liveliness_changed,
            r.requested_deadline_missed == self.requested_deadline_missed,
            r.subscription_matched == self.subscription_matched,
    {
        ReaderListener { requested_incompatible_qos: Some(callback), sample_lost: self.sample_lost, data_available: self.data_available, sample_rejected: self.sample_rejected, liveliness_changed: self.liveliness_changed, requested_deadline_missed: self.requested_deadline_missed, subscription_matched: self.subscription_matched }
    }

    /// Attach a handler for the `subscription_matched` status.
    pub fn with_subscription_matched(self, callback: CallbackToken) -> (r: Self)
        ensures
            r.subscription_matched == Some(callback),
            r.sample_lost == self.sample_lost,
            r.data_available == self.data_available,
            r.sample_rejected == self.sample_rejected,
            r.liveliness_changed == self.liveliness_changed,
            r.requested_deadline_missed == self.requested_deadline_missed,
            r.requested_incompatible_qos == self.requested_incompatible_qos,
    {
        ReaderListener { subscription_matched: Some(callback), sample_lost: self.sample_lost, data_available: self.data_available, sample_rejected: self.sample_rejected, liveliness_changed: self.liveliness_changed, requested_deadline_missed: self.requested_deadline_missed, requested_incompatible_qos: self.requested_incompatible_qos }
    }
}

impl Default for ReaderListener {
    fn default() -> (r: Self)
        ensures
            r.sample_lost is None,
            r.data_available is None,
            r.sample_rejected is None,
            r.liveliness_changed is None,
            r.requested_deadline_missed is None,
            r.requested_incompatible_qos is None,
            r.subscription_matched is None,
    {
        ReaderListener::new()
    }
}

/// Handlers for the status events of a writer. Every handler starts
/// unset; each `with_` builder attaches one.
#[derive(Clone, Copy, Debug, PartialEq, Eq, Structural)]
pub struct WriterListener {
    pub liveliness_lost: Option<CallbackToken>,
    pub offered_deadline_missed: Option<CallbackToken>,
    pub offered_incompatible_qos: Option<CallbackToken>,
    pub publication_matched: Option<CallbackToken>,
}

impl WriterListener {
    /// A listener with no handler attached.
    pub fn new() -> (r: Self)
        ensures
            r.liveliness_lost is None,
            r.offered_deadline_missed is None,
            r.offered_incompatible_qos is None,
            r.publication_matched is None,
    {
        WriterListener { liveliness_lost: None, offered_deadline_missed: None, offered_incompatible_qos: None, publication_matched: None }
    }

    /// Attach a handler for the `liveliness_lost` status.
    pub fn with_liveliness_lost(self, callback: CallbackToken) -> (r: Self)
        ensures
            r.liveliness_lost == Some(callback),
            r.offered_deadline_missed == self.offered_deadline_missed,
            r.offered_incompatible_qos == self.offered_incompatible_qos,
            r.publication_matched == self.publication_matched,
    {
        WriterListener { liveliness_lost: Some(callback), offered_deadline_missed: self.offered_deadline_missed, offered_incompatible_qos: self.offered_incompatible_qos, publication_matched: self.publication_matched }
    }

    /// Attach a handler for the `offered_deadline_missed` status.
    pub fn with_offered_deadline_missed(self, callback: CallbackToken) -> (r: Self)
        ensures
            r.offered_deadline_missed == Some(callback),
            r.liveliness_lost == self.liveliness_lost,
            r.offered_incompatible_qos == self.offered_incompatible_qos,
            r.publication_matched == self.publication_matched,
    {
        WriterListener { offered_deadline_missed: Some(callback), liveliness_lost: self.liveliness_lost, offered_incompatible_qos: self.offered_incompatible_qos, publication_matched: self.publication_matched }
    }

    /// Attach a handler for the `offered_incompatible_qos` status.
    pub fn with_offered_incompatible_qos(self, callback: CallbackToken) -> (r: Self)
        ensures
            r.offered_incompatible_qos == Some(callback),
            r.liveliness_lost == self.liveliness_lost,
            r.offered_deadline_missed == self.offered_deadline_missed,
            r.publication_matched == self.publication_matched,
    {
        WriterListener { offered_incompatible_qos: Some(callback), liveliness_lost: self.liveliness_lost, offered_deadline_missed: self.offered_deadline_missed, publication_matched: self.publication_matched }
    }

    /// Attach a handler for the `publication_matched` status.
    pub fn with_publication_matched(self, callback: CallbackToken) -> (r: Self)
        ensures
            r.publication_matched == Some(callback),
            r.liveliness_lost == self.liveliness_lost,
            r.offered_deadline_missed == self.offered_deadline_missed,
            r.offered_incompatible_qos == self.offered_incompatible_qos,
    {
        WriterListener { publication_matched: Some(callback), liveliness_lost: self.liveliness_lost, offered_deadline_missed: self.offered_deadline_missed, offered_incompatible_qos: self.offered_incompatible_qos }
    }
}

impl Default for WriterListener {
    fn default() -> (r: Self)
        ensures
            r.liveliness_lost is None,
            r.offered_deadline_missed is None,
            r.offered_incompatible_qos is None,
            r.publication_matched is None,
    {
        WriterListener::new()
    }
}

} // verus!
