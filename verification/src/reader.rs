//! What the reader of a pipelined connection does next.
//!
//! A [`Reader`] is told what was received, matches it with the message that
//! waits longest, and answers whether to go on.

use vstd::prelude::*;

use crate::sent_times::{after_take, may_give, SentTimes, Taken};
use crate::stats::{wrapped_sum, Stats, StatsView};
use crate::time::{elapsed, elapsed_nanos};
use crate::worker::{noticed, silence, told};
use crate::worker::{no_news, tell, News, Notice, Plan, Transport};

verus! {

/// What a reader receives.
#[derive(Clone, Copy, Debug, PartialEq, Eq, Structural)]
pub enum Incoming {
    /// A reply of so many bytes.
    Reply(usize),
    /// Something that is not a binary message.
    Other,
    /// The peer sends nothing more.
    Ended,
    /// An error.
    Failed,
    /// The user's wish to stop.
    Interrupted,
}

/// The answer of a reader.
#[derive(Clone, Copy, Debug, PartialEq, Eq, Structural)]
pub struct ReaderStep {
    /// What to print first.
    pub news: News,
    /// Whether to receive more.
    pub goes_on: bool,
}

/// The decisions for the replies of one connection.
#[derive(Clone, Copy, Debug)]
pub struct Reader {
    pub plan: Plan,
    /// Replies that were received.
    pub counter: usize,
}

/// A reader, the counters and the answer to what was received.
#[verifier::ext_equal]
pub struct ReaderTurn {
    pub reader: Reader,
    pub stats: StatsView,
    pub step: ReaderStep,
}

impl Reader {
    /// A reader without replies.
    pub open spec fn initial(plan: Plan) -> Reader {
        Reader { plan, counter: 0 }
    }

    /// A reader without replies.
    pub fn new(plan: Plan) -> (r: Reader)
        ensures
            r == Reader::initial(plan),
    {
        Reader { plan, counter: 0 }
    }

    /// The reply is one that counts: over TCP, one of the length of the
    /// message, and not empty.
    pub open spec fn is_reply(self, incoming: Incoming) -> bool {
        match incoming {
            Incoming::Reply(n) => !self.plan.is_tcp() || (n > 0 && self.plan.message_len == Some(
                n,
            )),
            _ => false,
        }
    }

    /// Bytes that were sent for a reply: the message.
    pub open spec fn sent_len(self) -> usize {
        match self.plan.message_len {
            Some(len) => len,
            None => 0,
        }
    }

    /// What follows a reply that counts, given what was taken from the queue of
    /// send times: with a send time the request and its latency are counted.
    pub open spec fn after_reply(
        self,
        stats: StatsView,
        taken: Taken,
        received: usize,
        now: u64,
    ) -> ReaderTurn {
        let reader = Reader { counter: self.counter.wrapping_add(1), ..self };
        match taken {
            Taken::Time(sent_at) => {
                let latency_us = elapsed(sent_at, now) / 1000;
                ReaderTurn {
                    reader,
                    stats: stats.after_latency(latency_us, reader.counter).after_request(
                        self.sent_len(),
                        received,
                    ),
                    step: ReaderStep {
                        news: News {
                            notice: None,
                            latency_failure: stats.latency_failure(latency_us, reader.counter),
                        },
                        goes_on: true,
                    },
                }
            },
            _ => ReaderTurn { reader, stats, step: ReaderStep { news: silence(), goes_on: true } },
        }
    }

    /// What follows anything that is not a reply that counts.
    pub open spec fn after_other(self, stats: StatsView, incoming: Incoming) -> ReaderTurn {
        match incoming {
            Incoming::Failed => ReaderTurn {
                reader: self,
                stats: stats.after_error(),
                step: ReaderStep {
                    news: noticed(told(self.plan, stats, Notice::ReceiveFailed)),
                    goes_on: false,
                },
            },
            _ => ReaderTurn {
                reader: self,
                stats,
                step: ReaderStep { news: silence(), goes_on: incoming == Incoming::Other },
            },
        }
    }

    /// Takes in a reply that counts and what was taken from the queue of send
    /// times.
    pub fn count_reply(&mut self, stats: &mut Stats, taken: Taken, received: usize, now: u64) -> (r:
        ReaderStep)
        requires
            old(stats).wf(),
        ensures
            final(stats).wf(),
            reader_turn(*final(self), *final(stats), r) == old(self).after_reply(
                old(stats)@,
                taken,
                received,
                now,
            ),
    {
        self.counter = self.counter.wrapping_add(1);
        match taken {
            Taken::Time(sent_at) => {
                let latency_us: u64 = elapsed_nanos(sent_at, now) / 1000;
                let latency_failure = stats.record_latency(latency_us, self.counter);
                let sent_len: usize = match self.plan.message_len {
                    Some(len) => len,
                    None => 0,
                };
                stats.record_request(sent_len, received);
                ReaderStep { news: News { notice: None, latency_failure }, goes_on: true }
            },
            _ => ReaderStep { news: no_news(), goes_on: true },
        }
    }

    /// Takes in what was received and answers whether to go on. For a reply, and
    /// for nothing else, it is tried once to take a time from the queue of send
    /// times: the reply is matched with the message that waits longest, unless
    /// the queue was disturbed.
    pub fn step(&mut self, stats: &mut Stats, sent: &mut SentTimes, incoming: Incoming, now: u64)
        -> (r: ReaderStep)
        requires
            old(stats).wf(),
        ensures
            final(stats).wf(),
            final(sent).attempts() == old(sent).attempts() + if old(self).is_reply(incoming) {
                1nat
            } else {
                0
            },
            !old(self).is_reply(incoming) ==> final(sent)@ == old(sent)@ && reader_turn(
                *final(self),
                *final(stats),
                r,
            ) == old(self).after_other(old(stats)@, incoming),
            old(self).is_reply(incoming) ==> exists|taken: Taken| #[trigger]
                may_give(old(sent)@, taken) && final(sent)@ == after_take(old(sent)@, taken)
                    && reader_turn(*final(self), *final(stats), r) == old(self).after_reply(
                    old(stats)@,
                    taken,
                    incoming->Reply_0,
                    now,
                ),
    {
        let reply: Option<usize> = match incoming {
            Incoming::Reply(n) => {
                let whole = match self.plan.message_len {
                    Some(len) => n > 0 && len == n,
                    None => false,
                };
                if self.plan.transport == Transport::WebSocket || whole {
                    Some(n)
                } else {
                    None
                }
            },
            _ => None,
        };
        match reply {
            Some(n) => {
                let taken = sent.take();
                assert(may_give(old(sent)@, taken));
                self.count_reply(stats, taken, n, now)
            },
            None => match incoming {
                Incoming::Failed => {
                    let notice = tell(&self.plan, stats, Notice::ReceiveFailed);
                    stats.record_connection_error();
                    ReaderStep { news: News { notice, latency_failure: None }, goes_on: false }
                },
                Incoming::Other => ReaderStep { news: no_news(), goes_on: true },
                _ => ReaderStep { news: no_news(), goes_on: false },
            },
        }
    }
}

/// A reader, counters and an answer as they stand.
pub open spec fn reader_turn(reader: Reader, stats: Stats, step: ReaderStep) -> ReaderTurn {
    ReaderTurn { reader, stats: stats@, step }
}

/// The queue of send times holds the messages without a reply, in the order in
/// which they were sent: a new message joins at the end, and a reply is matched
/// with the first message that has none yet. So the n-th reply is measured
/// from the n-th message.
pub proof fn replies_match_messages_in_order(
    sent: Seq<u64>,
    replies: nat,
    queue: Seq<u64>,
    time: u64,
    taken: Taken,
)
    requires
        replies <= sent.len(),
        queue == sent.skip(replies as int),
        may_give(queue, taken),
    ensures
        queue.push(time) == sent.push(time).skip(replies as int),
        taken matches Taken::Time(t) ==> {
            &&& replies < sent.len()
            &&& t == sent[replies as int]
            &&& after_take(queue, taken) == sent.skip(replies as int + 1)
        },
        !(taken is Time) ==> after_take(queue, taken) == queue,
        taken is Empty <==> replies == sent.len(),
{
    assert(queue.push(time) =~= sent.push(time).skip(replies as int));
    if taken is Time {
        assert(queue.drop_first() =~= sent.skip(replies as int + 1));
    }
}

/// A reader counts a request only for a reply, with the length of the message
/// as sent and that of the reply as received, and an error only when it ends.
pub proof fn reader_counts_replies(
    reader: Reader,
    stats: StatsView,
    taken: Taken,
    received: usize,
    now: u64,
    incoming: Incoming,
)
    requires
        !reader.is_reply(incoming),
    ensures
        ({
            let t = reader.after_reply(stats, taken, received, now);
            &&& t.step.goes_on
            &&& t.stats.connection_errors == stats.connection_errors
            &&& stats.is_warmup || !(taken is Time) ==> t.stats == stats
            &&& !stats.is_warmup && taken is Time ==> {
                &&& t.stats.total_requests == wrapped_sum(stats.total_requests, 1)
                &&& t.stats.total_bytes_received == wrapped_sum(
                    stats.total_bytes_received,
                    received as u64,
                )
                &&& reader.plan.message_len matches Some(len) ==> t.stats.total_bytes_sent
                    == wrapped_sum(stats.total_bytes_sent, len as u64)
            }
        }),
        ({
            let t = reader.after_other(stats, incoming);
            &&& t.stats.total_requests == stats.total_requests
            &&& t.step.goes_on ==> t.stats == stats
            &&& t.step.goes_on <==> incoming == Incoming::Other
        }),
{
}

} // verus!
