//! The subscription protocol: which block ids to offer, how to answer the validator,
//! and when to unsubscribe. The caller performs the sends and receives.
use vstd::prelude::*;
use crate::errors::SubscriberError;
use crate::event_handler::{handled_frame, EventHandler};
use crate::events::{ClassifiedChange, Event};
use crate::models::Block;
use crate::text::joined;

verus! {

/// The block id that stands for the genesis block.
pub const NULL_BLOCK_ID: &'static str = "0000000000000000";

/// The number of known block ids offered per subscription attempt.
pub const KNOWN_COUNT: usize = 10;

#[derive(Debug, Clone, Copy, PartialEq, Eq, Structural)]
pub enum FilterType {
    FilterTypeUnset,
    SimpleAny,
    SimpleAll,
    RegexAny,
    RegexAll,
}

#[derive(Debug, Clone, PartialEq, Eq)]
pub struct EventFilter {
    pub key: String,
    pub match_string: String,
    pub filter_type: FilterType,
}

#[derive(Debug, Clone, PartialEq, Eq)]
pub struct EventSubscription {
    pub event_type: String,
    pub filters: Vec<EventFilter>,
}

#[derive(Debug, Clone, PartialEq, Eq)]
pub struct SubscribeRequest {
    pub subscriptions: Vec<EventSubscription>,
    pub last_known_block_ids: Vec<String>,
}

/// The validator's answer to a subscribe request.
#[derive(Debug, Clone, Copy, PartialEq, Eq, Structural)]
pub enum SubscribeStatus {
    StatusUnset,
    StatusOk,
    InvalidFilter,
    UnknownBlock,
}

/// The validator's answer to an unsubscribe request.
#[derive(Debug, Clone, Copy, PartialEq, Eq, Structural)]
pub enum UnsubscribeStatus {
    StatusUnset,
    StatusOk,
    InternalError,
}

#[derive(Debug, Clone, Copy, PartialEq, Eq, Structural)]
pub enum Phase {
    Idle,
    Subscribing,
    Active,
    Unsubscribing,
    Stopped,
}

/// The window of known block ids offered from `start`: the genesis id alone once
/// `start` is past the list, else up to `KNOWN_COUNT` ids from `start` on.
pub open spec fn spec_window(known: Seq<String>, start: int) -> Seq<Seq<char>> {
    if start >= known.len() {
        seq![NULL_BLOCK_ID@]
    } else if start + KNOWN_COUNT >= known.len() {
        known.subrange(start, known.len() as int).map_values(|s: String| s@)
    } else {
        known.subrange(start, start + KNOWN_COUNT).map_values(|s: String| s@)
    }
}

pub open spec fn string_views(v: Seq<String>) -> Seq<Seq<char>> {
    v.map_values(|s: String| s@)
}

/// The start of the next window after `start`.
pub open spec fn spec_next_start(start: usize) -> usize {
    if start + KNOWN_COUNT <= usize::MAX {
        (start + KNOWN_COUNT) as usize
    } else {
        usize::MAX
    }
}

/// Whether `r` subscribes to commit events and to the state-delta events of the
/// namespace `ns`, offering the block ids `ids`.
pub open spec fn is_subscribe_request(ns: Seq<char>, ids: Seq<Seq<char>>, r: SubscribeRequest) -> bool {
    let subs = r.subscriptions@;
    &&& string_views(r.last_known_block_ids@) == ids
    &&& subs.len() == 2
    &&& subs[0].event_type@ == "sawtooth/block-commit"@
    &&& subs[0].filters@.len() == 0
    &&& subs[1].event_type@ == "sawtooth/state-delta"@
    &&& subs[1].filters@.len() == 1
    &&& subs[1].filters@[0].key@ == "address"@
    &&& subs[1].filters@[0].match_string@ == "^"@ + ns
    &&& subs[1].filters@[0].filter_type == FilterType::RegexAny
}

/// What answering the subscribe response `status` does: from `s`, with the
/// negotiation in progress, to `t`, returning `r`.
pub open spec fn subscribe_step(
    s: Subscriber,
    status: SubscribeStatus,
    t: Subscriber,
    r: Result<Option<SubscribeRequest>, SubscriberError>,
) -> bool {
    &&& t.event_handler == s.event_handler
    &&& t.known_block_ids@ == s.known_block_ids@
    &&& match status {
        SubscribeStatus::StatusOk => r matches Ok(None) && t.phase == Phase::Active && t.start_index
            == s.start_index,
        SubscribeStatus::UnknownBlock => if s.start_index < s.known_block_ids@.len() {
            &&& r matches Ok(Some(req))
            &&& t.phase == Phase::Subscribing
            &&& t.start_index == spec_next_start(s.start_index)
            &&& is_subscribe_request(
                s.event_handler.rules.namespace@,
                spec_window(s.known_block_ids@, t.start_index as int),
                r->Ok_0->Some_0,
            )
        } else {
            r matches Err(SubscriberError::ConnError(_)) && t.phase == Phase::Stopped
        },
        _ => r matches Err(SubscriberError::ConnError(_)) && t.phase == Phase::Stopped,
    }
}

/// A validator that answers `UNKNOWN_BLOCK` to the first offer is offered the next
/// window, `KNOWN_COUNT` ids on, of the same list of known ids.
pub proof fn lemma_unknown_block_offers_next_window(
    s: Subscriber,
    t: Subscriber,
    r: Result<Option<SubscribeRequest>, SubscriberError>,
)
    requires
        s.start_index == 0,
        s.known_block_ids@.len() > 0,
        subscribe_step(s, SubscribeStatus::UnknownBlock, t, r),
    ensures
        t.start_index == KNOWN_COUNT,
        t.known_block_ids@ == s.known_block_ids@,
        t.phase == Phase::Subscribing,
        r matches Ok(Some(req)) && string_views(req.last_known_block_ids@) == spec_window(
            s.known_block_ids@,
            KNOWN_COUNT as int,
        ),
{
}

fn copy_ids(ids: &[String], from: usize, to: usize) -> (r: Vec<String>)
    requires
        from <= to <= ids@.len(),
    ensures
        r@ == ids@.subrange(from as int, to as int),
{
    let mut out: Vec<String> = Vec::new();
    let mut i: usize = from;
    while i < to
        invariant
            from <= i <= to <= ids@.len(),
            out@ == ids@.subrange(from as int, i as int),
        decreases to - i,
    {
        out.push(ids[i].clone());
        proof {
            assert(out@ =~= ids@.subrange(from as int, i + 1));
        }
        i = i + 1;
    }
    out
}

/// Drives the subscription to the validator's commit and state-delta events, and
/// hands each delivered frame to the event handler.
pub struct Subscriber {
    pub event_handler: EventHandler,
    pub known_block_ids: Vec<String>,
    pub start_index: usize,
    pub phase: Phase,
}

impl Subscriber {
    pub open spec fn wf(&self) -> bool {
        self.event_handler.wf()
    }

    pub fn new(event_handler: EventHandler) -> (r: Subscriber)
        ensures
            r.event_handler == event_handler,
            r.known_block_ids@.len() == 0,
            r.start_index == 0,
            r.phase == Phase::Idle,
    {
        Subscriber { event_handler, known_block_ids: Vec::new(), start_index: 0, phase: Phase::Idle }
    }

    /// Given a list of known block ids, returns at most `KNOWN_COUNT` of them starting
    /// from `start_index`, or the genesis id alone once `start_index` is past the list.
    pub fn get_last_known_block_ids(known_block_ids: &[String], start_index: usize) -> (r: Vec<
        String,
    >)
        ensures
            string_views(r@) == spec_window(known_block_ids@, start_index as int),
    {
        let len = known_block_ids.len();
        if start_index >= len {
            let ids = vec![NULL_BLOCK_ID.to_string()];
            proof {
                assert(string_views(ids@) =~= seq![NULL_BLOCK_ID@]);
            }
            ids
        } else if KNOWN_COUNT >= len - start_index {
            let ids = copy_ids(known_block_ids, start_index, len);
            proof {
                assert(string_views(ids@) =~= spec_window(known_block_ids@, start_index as int));
            }
            ids
        } else {
            let ids = copy_ids(known_block_ids, start_index, start_index + KNOWN_COUNT);
            proof {
                assert(string_views(ids@) =~= spec_window(known_block_ids@, start_index as int));
            }
            ids
        }
    }

    /// The subscribe request that offers `last_known_block_ids`.
    pub fn build_subscription_request(&self, last_known_block_ids: Vec<String>) -> (r:
        SubscribeRequest)
        ensures
            is_subscribe_request(
                self.event_handler.rules.namespace@,
                string_views(last_known_block_ids@),
                r,
            ),
    {
        let block_subscription = Self::get_block_commit_subscription();
        let state_delta_subscription = self.get_state_delta_subscription();
        let subscriptions = vec![block_subscription, state_delta_subscription];
        SubscribeRequest { subscriptions, last_known_block_ids }
    }

    fn get_block_commit_subscription() -> (r: EventSubscription)
        ensures
            r.event_type@ == "sawtooth/block-commit"@,
            r.filters@.len() == 0,
    {
        EventSubscription { event_type: "sawtooth/block-commit".to_string(), filters: Vec::new() }
    }

    fn get_state_delta_subscription(&self) -> (r: EventSubscription)
        ensures
            r.event_type@ == "sawtooth/state-delta"@,
            r.filters@.len() == 1,
            r.filters@[0].key@ == "address"@,
            r.filters@[0].match_string@ == "^"@ + self.event_handler.rules.namespace@,
            r.filters@[0].filter_type == FilterType::RegexAny,
    {
        let event_filter = EventFilter {
            key: "address".to_string(),
            match_string: joined("^", self.event_handler.rules.namespace.as_str()),
            filter_type: FilterType::RegexAny,
        };
        EventSubscription {
            event_type: "sawtooth/state-delta".to_string(),
            filters: vec![event_filter],
        }
    }

    /// Starts negotiating a subscription that offers the window of `known_block_ids`
    /// from `start_index`; returns the request to send.
    pub fn start(&mut self, known_block_ids: &[String], start_index: usize) -> (r:
        SubscribeRequest)
        ensures
            final(self).event_handler == old(self).event_handler,
            final(self).known_block_ids@ == known_block_ids@,
            final(self).start_index == start_index,
            final(self).phase == Phase::Subscribing,
            is_subscribe_request(
                old(self).event_handler.rules.namespace@,
                spec_window(known_block_ids@, start_index as int),
                r,
            ),
    {
        self.known_block_ids = copy_ids(known_block_ids, 0, known_block_ids.len());
        proof {
            assert(known_block_ids@.subrange(0, known_block_ids@.len() as int) =~= known_block_ids@);
        }
        self.start_index = start_index;
        self.phase = Phase::Subscribing;
        let ids = Self::get_last_known_block_ids(known_block_ids, start_index);
        self.build_subscription_request(ids)
    }

    /// Answers the validator's response to the pending subscribe request: `OK` makes
    /// the subscription active; `UNKNOWN_BLOCK` gives the request that offers the
    /// next window of the same ids, until the genesis id has been refused; anything
    /// else is a connection error.
    pub fn on_subscribe_response(&mut self, status: SubscribeStatus) -> (r: Result<
        Option<SubscribeRequest>,
        SubscriberError,
    >)
        requires
            old(self).phase == Phase::Subscribing,
        ensures
            subscribe_step(*old(self), status, *final(self), r),
    {
        match status {
            SubscribeStatus::StatusOk => {
                self.phase = Phase::Active;
                Ok(None)
            },
            SubscribeStatus::UnknownBlock => {
                if self.start_index >= self.known_block_ids.len() {
                    self.phase = Phase::Stopped;
                    return Err(
                        SubscriberError::ConnError(
                            "The validator refused the genesis block id".to_string(),
                        ),
                    );
                }
                let next = if self.start_index <= usize::MAX - KNOWN_COUNT {
                    self.start_index + KNOWN_COUNT
                } else {
                    usize::MAX
                };
                self.start_index = next;
                let ids = Self::get_last_known_block_ids(self.known_block_ids.as_slice(), next);
                Ok(Some(self.build_subscription_request(ids)))
            },
            _ => {
                self.phase = Phase::Stopped;
                Err(
                    SubscriberError::ConnError(
                        "The validator returned an invalid response".to_string(),
                    ),
                )
            },
        }
    }

    /// Hands a delivered frame to the event handler. An error ends the
    /// subscription: the caller unsubscribes next.
    pub fn handle_frame(&mut self, events: &Vec<Event>) -> (r: Result<
        Option<(Block, Vec<ClassifiedChange>)>,
        SubscriberError,
    >)
        requires
            old(self).wf(),
            old(self).phase == Phase::Active,
        ensures
            final(self).event_handler == old(self).event_handler,
            final(self).known_block_ids@ == old(self).known_block_ids@,
            final(self).start_index == old(self).start_index,
            handled_frame(old(self).event_handler.rules, events@, r),
            r is Ok ==> final(self).phase == Phase::Active,
            r is Err ==> final(self).phase == Phase::Unsubscribing,
    {
        let r = self.event_handler.handle_events(events);
        if r.is_err() {
            self.phase = Phase::Unsubscribing;
        }
        r
    }

    /// Ends the receive loop, whatever ended it: the caller sends the unsubscribe
    /// request next.
    pub fn stop(&mut self)
        ensures
            final(self).event_handler == old(self).event_handler,
            final(self).known_block_ids@ == old(self).known_block_ids@,
            final(self).start_index == old(self).start_index,
            final(self).phase == Phase::Unsubscribing,
    {
        self.phase = Phase::Unsubscribing;
    }

    /// Answers the validator's response to the unsubscribe request.
    pub fn on_unsubscribe_response(&mut self, status: UnsubscribeStatus) -> (r: Result<
        (),
        SubscriberError,
    >)
        requires
            old(self).phase == Phase::Unsubscribing,
        ensures
            final(self).event_handler == old(self).event_handler,
            final(self).known_block_ids@ == old(self).known_block_ids@,
            final(self).start_index == old(self).start_index,
            final(self).phase == Phase::Stopped,
            status == UnsubscribeStatus::StatusOk ==> r is Ok,
            status != UnsubscribeStatus::StatusOk ==> r matches Err(SubscriberError::ConnError(_)),
    {
        self.phase = Phase::Stopped;
        match status {
            UnsubscribeStatus::StatusOk => Ok(()),
            _ => Err(
                SubscriberError::ConnError(
                    "The validator returned an invalid response".to_string(),
                ),
            ),
        }
    }
}

} // verus!
