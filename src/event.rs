use vstd::prelude::*;

verus! {

/// A notification from the window server, with the fields the tray reads.
#[derive(Clone, Copy, Debug, PartialEq, Eq)]
pub enum RawEvent {
    /// A property of `window` changed, at server time `time`.
    PropertyNotify { window: u32, time: u32 },
    /// A client message addressed to `window`, with its five 32-bit words.
    ClientMessage { window: u32, data: [u32; 5] },
    /// `window` was destroyed.
    DestroyNotify { window: u32 },
    /// `window` now has the given size.
    ConfigureNotify { window: u32, width: u16, height: u16 },
    /// `window` was moved under `parent`.
    ReparentNotify { window: u32, parent: u32 },
    /// Ownership of a selection held by `owner` was lost.
    SelectionClear { owner: u32, time: u32 },
    /// Any other notification.
    Other,
}

/// What the tray reacts to, as classified from the raw notifications.
#[derive(Clone, Copy, Debug, PartialEq, Eq)]
pub enum Event {
    /// The host window is known to the server; the timestamp may be used to
    /// claim the selection.
    Ready(u32),
    /// A client asks for its window to be embedded.
    ChildRequest(u32),
    /// A window was destroyed.
    ChildDestroyed(u32),
    /// A window was configured, to the given size if it is known.
    ChildConfigured(u32, Option<(u16, u16)>),
}

/// Turns raw notifications into events. It remembers one bit: whether
/// `Ready` was already produced.
pub struct Classifier {
    host: u32,
    has_signaled_ready: bool,
}

/// The event that a classifier for `host` produces from `raw`, given whether
/// it already signalled readiness.
pub open spec fn classified(host: u32, ready: bool, raw: RawEvent) -> Option<Event> {
    match raw {
        RawEvent::PropertyNotify { window, time } => {
            if !ready && window == host {
                Some(Event::Ready(time))
            } else {
                None
            }
        },
        RawEvent::ClientMessage { data, .. } => Some(Event::ChildRequest(data@[2])),
        RawEvent::DestroyNotify { window } => Some(Event::ChildDestroyed(window)),
        RawEvent::ConfigureNotify { window, width, height } => Some(
            Event::ChildConfigured(window, Some((width, height))),
        ),
        _ => None,
    }
}

/// Whether readiness was signalled after classifying `raw`.
pub open spec fn ready_after(host: u32, ready: bool, raw: RawEvent) -> bool {
    ready || classified(host, ready, raw) is Some && classified(host, ready, raw).unwrap() is Ready
}

/// The events produced by classifying `raws` in order.
pub open spec fn classify_all(host: u32, ready: bool, raws: Seq<RawEvent>) -> Seq<Option<Event>>
    decreases raws.len(),
{
    if raws.len() == 0 {
        Seq::empty()
    } else {
        seq![classified(host, ready, raws[0])] + classify_all(
            host,
            ready_after(host, ready, raws[0]),
            raws.drop_first(),
        )
    }
}

/// Whether an output of the classifier is a readiness event.
pub open spec fn is_ready(e: Option<Event>) -> bool {
    e is Some && e.unwrap() is Ready
}

/// The number of readiness events in a run of the classifier.
pub open spec fn count_ready(events: Seq<Option<Event>>) -> nat
    decreases events.len(),
{
    if events.len() == 0 {
        0
    } else {
        (if is_ready(events[0]) {
            1nat
        } else {
            0nat
        }) + count_ready(events.drop_first())
    }
}

impl Classifier {
    /// The window whose first property change signals readiness.
    pub closed spec fn host(&self) -> u32 {
        self.host
    }

    /// Whether readiness was already signalled.
    pub closed spec fn has_signaled_ready(&self) -> bool {
        self.has_signaled_ready
    }

    /// A classifier for the host window `host` that has signalled nothing.
    pub fn new(host: u32) -> (r: Classifier)
        ensures
            r.host() == host,
            !r.has_signaled_ready(),
    {
        Classifier { host, has_signaled_ready: false }
    }

    /// Classifies one raw notification: the first property change of the
    /// host window gives `Ready`, a client message asks for the window in
    /// its third word, destroy and configure notifications are passed on,
    /// and anything else gives nothing.
    pub fn classify(&mut self, raw: &RawEvent) -> (r: Option<Event>)
        ensures
            r == classified(old(self).host(), old(self).has_signaled_ready(), *raw),
            final(self).host() == old(self).host(),
            final(self).has_signaled_ready() == ready_after(
                old(self).host(),
                old(self).has_signaled_ready(),
                *raw,
            ),
    {
        match raw {
            RawEvent::PropertyNotify { window, time } => {
                if !self.has_signaled_ready && *window == self.host {
                    self.has_signaled_ready = true;
                    Some(Event::Ready(*time))
                } else {
                    None
                }
            },
            RawEvent::ClientMessage { data, .. } => Some(Event::ChildRequest(data[2])),
            RawEvent::DestroyNotify { window } => Some(Event::ChildDestroyed(*window)),
            RawEvent::ConfigureNotify { window, width, height } => Some(
                Event::ChildConfigured(*window, Some((*width, *height))),
            ),
            _ => None,
        }
    }
}

/// Readiness is signalled at most once however many notifications are
/// classified, and never again once it was signalled.
pub proof fn lemma_ready_at_most_once(host: u32, ready: bool, raws: Seq<RawEvent>)
    ensures
        count_ready(classify_all(host, ready, raws)) <= 1,
        ready ==> count_ready(classify_all(host, ready, raws)) == 0,
    decreases raws.len(),
{
    if raws.len() > 0 {
        let events = classify_all(host, ready, raws);
        lemma_ready_at_most_once(host, ready_after(host, ready, raws[0]), raws.drop_first());
        assert(events.drop_first() =~= classify_all(
            host,
            ready_after(host, ready, raws[0]),
            raws.drop_first(),
        ));
    }
}

} // verus!
