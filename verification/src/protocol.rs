//! The protocol of one cache operation.
//!
//! An operation starts at the cache handle and yields a [`Step`]. Every step
//! but the last names one effect for the caller to perform and holds the state
//! that takes the effect's result:
//!
//! * `Encode`: serialize the value to store;
//! * `Connect`: acquire a connection from the pool;
//! * `Read`, `Write`: send the state's command over the connection;
//! * `Decode`: deserialize the payload that was read;
//! * `Done`: the operation is over, with this outcome.
//!
//! A typed read settles the statistics when it ends: one hit if it resolved to
//! a value, one miss if it did not, whatever the reason.

use vstd::prelude::*;

use crate::keys::{plain_key_spec, scoped_key_spec};
use crate::stats::{Stats, StatsView};
use crate::status::CacheStatus;
use crate::wire::{Request, RequestView};

verus! {

/// Why an operation degraded to a miss or to a skipped write.
#[derive(Clone, Copy, Debug, PartialEq, Eq, Structural)]
pub enum CacheErrorKind {
    /// No endpoint is configured: the cache is disabled.
    ConfigAbsent,
    /// No connection could be acquired.
    ConnectionFailed,
    /// The key-value store failed the command.
    BackendError,
    /// The value could not be serialized.
    EncodeFailed,
    /// The stored payload did not deserialize to the requested type.
    DecodeFailed,
}

/// How an operation ended.
#[derive(Debug, PartialEq, Eq)]
pub enum Outcome {
    /// A read resolved to a value, decoded from this payload.
    Hit { payload: Vec<u8> },
    /// A write reached the store.
    Stored,
    /// A removal reached the store.
    Deleted,
    /// A status check: whether a pool exists, and whether it gave a connection.
    Status(CacheStatus),
    /// Nothing was read, written or removed.
    Degraded(CacheErrorKind),
}

/// How an operation ended, as mathematical values.
pub enum OutcomeView {
    Hit { payload: Seq<u8> },
    Stored,
    Deleted,
    Status { enabled: bool, healthy: bool },
    Degraded(CacheErrorKind),
}

impl View for Outcome {
    type V = OutcomeView;

    open spec fn view(&self) -> OutcomeView {
        match self {
            Outcome::Hit { payload } => OutcomeView::Hit { payload: payload@ },
            Outcome::Stored => OutcomeView::Stored,
            Outcome::Deleted => OutcomeView::Deleted,
            Outcome::Status(status) => OutcomeView::Status {
                enabled: status@.enabled,
                healthy: status@.healthy,
            },
            Outcome::Degraded(kind) => OutcomeView::Degraded(*kind),
        }
    }
}

/// What a caller asks of the cache.
pub enum OperationView {
    /// A typed read of the plain entry of this type and id.
    Get { type_id: Seq<char>, id: Seq<char> },
    /// A read of the scoped entry of this scope and type.
    GetScoped { scope: Seq<char>, type_id: Seq<char> },
    /// A write of the plain entry of this type and id, with the cache's time
    /// to live.
    SetEx { type_id: Seq<char>, id: Seq<char> },
    /// A write of the scoped entry of this scope and type, without expiry.
    SetScoped { scope: Seq<char>, type_id: Seq<char> },
    /// The removal of the entry at this key.
    Delete { key: Seq<char> },
    /// A status check.
    Status,
}

impl OperationView {
    /// Whether the operation is a typed read, which the statistics count.
    pub open spec fn counted(self) -> bool {
        self is Get
    }

    /// The first step of the operation, on a cache that is enabled or not and
    /// has this time to live. A disabled cache ends every operation at once,
    /// before any effect; an enabled one derives the key, then asks for the
    /// serialized value (a write) or for a connection (any other operation).
    pub open spec fn begin(self, enabled: bool, ttl: nat) -> StepView {
        if !enabled {
            match self {
                OperationView::Status => StepView::Done(
                    OutcomeView::Status { enabled: false, healthy: false },
                ),
                _ => StepView::Done(OutcomeView::Degraded(CacheErrorKind::ConfigAbsent)),
            }
        } else {
            match self {
                OperationView::Get { type_id, id } => StepView::Connect {
                    intent: IntentView::Read { key: plain_key_spec(type_id, id), counted: true },
                },
                OperationView::GetScoped { scope, type_id } => StepView::Connect {
                    intent: IntentView::Read {
                        key: scoped_key_spec(scope, type_id),
                        counted: false,
                    },
                },
                OperationView::SetEx { type_id, id } => StepView::Encode {
                    key: plain_key_spec(type_id, id),
                    ttl: Some(ttl),
                },
                OperationView::SetScoped { scope, type_id } => StepView::Encode {
                    key: scoped_key_spec(scope, type_id),
                    ttl: None,
                },
                OperationView::Delete { key } => StepView::Connect {
                    intent: IntentView::Write { request: RequestView::Del { key } },
                },
                OperationView::Status => StepView::Connect { intent: IntentView::Probe },
            }
        }
    }
}

/// What a connection is wanted for.
pub enum IntentView {
    /// To read the entry at `key`; `counted` for a typed read.
    Read { key: Seq<char>, counted: bool },
    /// To send a write or a removal.
    Write { request: RequestView },
    /// To see whether one can be had.
    Probe,
}

/// A step of an operation, as mathematical values.
pub enum StepView {
    /// The value is to be serialized, for the entry at `key`, to expire after
    /// `ttl` seconds if there is one.
    Encode { key: Seq<char>, ttl: Option<nat> },
    /// A connection is to be acquired.
    Connect { intent: IntentView },
    /// `GET key` is to be sent; `counted` for a typed read.
    Read { key: Seq<char>, counted: bool },
    /// A write or a removal is to be sent.
    Write { request: RequestView },
    /// The payload is to be deserialized; `counted` for a typed read.
    Decode { payload: Seq<u8>, counted: bool },
    /// The operation is over.
    Done(OutcomeView),
}

impl StepView {
    /// Whether the step belongs to a typed read, which settles the
    /// statistics when it ends.
    pub open spec fn counted(self) -> bool {
        match self {
            StepView::Connect { intent: IntentView::Read { counted, .. } } => counted,
            StepView::Read { counted, .. } => counted,
            StepView::Decode { counted, .. } => counted,
            _ => false,
        }
    }

    /// The step after the value was serialized to `payload`, or could not be
    /// (`None`): the write is skipped if it could not, and else waits for a
    /// connection, with the time to live attached if there is one.
    pub open spec fn encoded(self, payload: Option<Seq<u8>>) -> StepView {
        match self {
            StepView::Encode { key, ttl } => match payload {
                None => StepView::Done(OutcomeView::Degraded(CacheErrorKind::EncodeFailed)),
                Some(value) => StepView::Connect {
                    intent: IntentView::Write {
                        request: match ttl {
                            Some(seconds) => RequestView::SetEx { key, ttl: seconds, value },
                            None => RequestView::Persist { key, value },
                        },
                    },
                },
            },
            _ => self,
        }
    }

    /// The step after a connection was acquired, or was not: with one, the
    /// command is to be sent, and a probe reports a healthy cache; without,
    /// the operation ends, and a probe reports an unhealthy one.
    pub open spec fn connected(self, acquired: bool) -> StepView {
        match self {
            StepView::Connect { intent } => match intent {
                IntentView::Read { key, counted } => if acquired {
                    StepView::Read { key, counted }
                } else {
                    StepView::Done(OutcomeView::Degraded(CacheErrorKind::ConnectionFailed))
                },
                IntentView::Write { request } => if acquired {
                    StepView::Write { request }
                } else {
                    StepView::Done(OutcomeView::Degraded(CacheErrorKind::ConnectionFailed))
                },
                IntentView::Probe => StepView::Done(
                    OutcomeView::Status { enabled: true, healthy: acquired },
                ),
            },
            _ => self,
        }
    }

    /// The step after the store answered a read with `reply`, or failed it
    /// (`None`): the payload goes to the decoder, a failure ends the read.
    pub open spec fn read_replied(self, reply: Option<Seq<u8>>) -> StepView {
        match self {
            StepView::Read { key, counted } => match reply {
                Some(payload) => StepView::Decode { payload, counted },
                None => StepView::Done(OutcomeView::Degraded(CacheErrorKind::BackendError)),
            },
            _ => self,
        }
    }

    /// The step after the store accepted a write or a removal, or failed it.
    pub open spec fn write_replied(self, accepted: bool) -> StepView {
        match self {
            StepView::Write { request } => if !accepted {
                StepView::Done(OutcomeView::Degraded(CacheErrorKind::BackendError))
            } else if request is Del {
                StepView::Done(OutcomeView::Deleted)
            } else {
                StepView::Done(OutcomeView::Stored)
            },
            _ => self,
        }
    }

    /// The step after the payload deserialized, or did not.
    pub open spec fn decoded(self, accepted: bool) -> StepView {
        match self {
            StepView::Decode { payload, counted } => if accepted {
                StepView::Done(OutcomeView::Hit { payload })
            } else {
                StepView::Done(OutcomeView::Degraded(CacheErrorKind::DecodeFailed))
            },
            _ => self,
        }
    }
}

/// The statistics after a step of an operation led to `next`: when a typed
/// read ends, one more hit if it resolved to a value and one more miss if it
/// did not; unchanged otherwise.
pub open spec fn settle(stats: StatsView, counted: bool, next: StepView) -> StatsView {
    if counted {
        match next {
            StepView::Done(OutcomeView::Hit { .. }) => stats.hit(),
            StepView::Done(_) => stats.miss(),
            _ => stats,
        }
    } else {
        stats
    }
}

/// What a connection is wanted for.
#[derive(Debug, PartialEq, Eq)]
enum Intent {
    Read { key: String, counted: bool },
    Write { request: Request },
    Probe,
}

impl View for Intent {
    type V = IntentView;

    closed spec fn view(&self) -> IntentView {
        match self {
            Intent::Read { key, counted } => IntentView::Read { key: key@, counted: *counted },
            Intent::Write { request } => IntentView::Write { request: request@ },
            Intent::Probe => IntentView::Probe,
        }
    }
}

/// A write that waits for its value to be serialized.
#[derive(Debug, PartialEq, Eq)]
pub struct Encoding {
    key: String,
    ttl: Option<usize>,
}

/// An operation that waits for a connection.
#[derive(Debug, PartialEq, Eq)]
pub struct Connecting {
    intent: Intent,
}

/// A read that waits for the store's reply.
#[derive(Debug, PartialEq, Eq)]
pub struct Reading {
    key: String,
    counted: bool,
}

/// A write or a removal that waits for the store's reply.
#[derive(Debug, PartialEq, Eq)]
pub struct Writing {
    request: Request,
}

/// A read that waits for its payload to be deserialized.
#[derive(Debug, PartialEq, Eq)]
pub struct Decoding {
    payload: Vec<u8>,
    counted: bool,
}

/// A step of an operation: the effect to perform next, or the outcome.
#[derive(Debug, PartialEq, Eq)]
pub enum Step {
    Encode(Encoding),
    Connect(Connecting),
    Read(Reading),
    Write(Writing),
    Decode(Decoding),
    Done(Outcome),
}

impl Encoding {
    /// The key of the entry to write.
    pub closed spec fn held_key(&self) -> Seq<char> {
        self.key@
    }

    /// The seconds after which the entry is to expire, if it is.
    pub closed spec fn held_ttl(&self) -> Option<nat> {
        match self.ttl {
            Some(seconds) => Some(seconds as nat),
            None => None,
        }
    }
}

impl View for Encoding {
    type V = StepView;

    open spec fn view(&self) -> StepView {
        StepView::Encode { key: self.held_key(), ttl: self.held_ttl() }
    }
}

impl Connecting {
    /// What the connection is wanted for.
    pub closed spec fn held_intent(&self) -> IntentView {
        self.intent@
    }
}

impl View for Connecting {
    type V = StepView;

    open spec fn view(&self) -> StepView {
        StepView::Connect { intent: self.held_intent() }
    }
}

impl Reading {
    /// The key of the entry to read.
    pub closed spec fn held_key(&self) -> Seq<char> {
        self.key@
    }

    /// Whether the read is a typed one.
    pub closed spec fn is_counted(&self) -> bool {
        self.counted
    }
}

impl View for Reading {
    type V = StepView;

    open spec fn view(&self) -> StepView {
        StepView::Read { key: self.held_key(), counted: self.is_counted() }
    }
}

impl Writing {
    /// The command to send.
    pub closed spec fn held_request(&self) -> RequestView {
        self.request@
    }
}

impl View for Writing {
    type V = StepView;

    open spec fn view(&self) -> StepView {
        StepView::Write { request: self.held_request() }
    }
}

impl Decoding {
    /// The payload that was read.
    pub closed spec fn held_payload(&self) -> Seq<u8> {
        self.payload@
    }

    /// Whether the read is a typed one.
    pub closed spec fn is_counted(&self) -> bool {
        self.counted
    }
}

impl View for Decoding {
    type V = StepView;

    open spec fn view(&self) -> StepView {
        StepView::Decode { payload: self.held_payload(), counted: self.is_counted() }
    }
}

impl View for Step {
    type V = StepView;

    open spec fn view(&self) -> StepView {
        match self {
            Step::Encode(state) => state@,
            Step::Connect(state) => state@,
            Step::Read(state) => state@,
            Step::Write(state) => state@,
            Step::Decode(state) => state@,
            Step::Done(outcome) => StepView::Done(outcome@),
        }
    }
}

/// Counts the end of a typed read.
fn settle_stats(stats: &mut Stats, counted: bool, hit: bool)
    ensures
        final(stats)@ == if !counted {
            old(stats)@
        } else if hit {
            old(stats)@.hit()
        } else {
            old(stats)@.miss()
        },
{
    if counted {
        if hit {
            stats.cache_hit();
        } else {
            stats.cache_miss();
        }
    }
}

/// Ends an operation without a value.
fn degrade(kind: CacheErrorKind, counted: bool, stats: &mut Stats) -> (next: Step)
    ensures
        next@ == StepView::Done(OutcomeView::Degraded(kind)),
        final(stats)@ == settle(old(stats)@, counted, next@),
{
    settle_stats(stats, counted, false);
    Step::Done(Outcome::Degraded(kind))
}

impl Step {
    /// The first step of a typed read of the entry at `key`, on a cache that
    /// is enabled or not.
    pub(crate) fn start_typed_read(enabled: bool, key: String, stats: &mut Stats) -> (next: Step)
        ensures
            next@ == if enabled {
                StepView::Connect { intent: IntentView::Read { key: key@, counted: true } }
            } else {
                StepView::Done(OutcomeView::Degraded(CacheErrorKind::ConfigAbsent))
            },
            final(stats)@ == settle(old(stats)@, true, next@),
    {
        if enabled {
            Step::Connect(Connecting { intent: Intent::Read { key, counted: true } })
        } else {
            degrade(CacheErrorKind::ConfigAbsent, true, stats)
        }
    }

    /// The first step of a read of the scoped entry at `key`.
    pub(crate) fn start_scoped_read(enabled: bool, key: String) -> (next: Step)
        ensures
            next@ == if enabled {
                StepView::Connect { intent: IntentView::Read { key: key@, counted: false } }
            } else {
                StepView::Done(OutcomeView::Degraded(CacheErrorKind::ConfigAbsent))
            },
    {
        if enabled {
            Step::Connect(Connecting { intent: Intent::Read { key, counted: false } })
        } else {
            Step::Done(Outcome::Degraded(CacheErrorKind::ConfigAbsent))
        }
    }

    /// The first step of a write to the entry at `key`, to expire after `ttl`
    /// seconds if there is one.
    pub(crate) fn start_write(enabled: bool, key: String, ttl: Option<usize>) -> (next: Step)
        ensures
            next@ == if enabled {
                StepView::Encode {
                    key: key@,
                    ttl: match ttl {
                        Some(seconds) => Some(seconds as nat),
                        None => None,
                    },
                }
            } else {
                StepView::Done(OutcomeView::Degraded(CacheErrorKind::ConfigAbsent))
            },
    {
        if enabled {
            Step::Encode(Encoding { key, ttl })
        } else {
            Step::Done(Outcome::Degraded(CacheErrorKind::ConfigAbsent))
        }
    }

    /// The first step of the removal of the entry at `key`.
    pub(crate) fn start_delete(enabled: bool, key: String) -> (next: Step)
        ensures
            next@ == if enabled {
                StepView::Connect {
                    intent: IntentView::Write { request: RequestView::Del { key: key@ } },
                }
            } else {
                StepView::Done(OutcomeView::Degraded(CacheErrorKind::ConfigAbsent))
            },
    {
        if enabled {
            Step::Connect(Connecting { intent: Intent::Write { request: Request::Del { key } } })
        } else {
            Step::Done(Outcome::Degraded(CacheErrorKind::ConfigAbsent))
        }
    }

    /// The first step of a status check.
    pub(crate) fn start_probe(enabled: bool) -> (next: Step)
        ensures
            next@ == if enabled {
                StepView::Connect { intent: IntentView::Probe }
            } else {
                StepView::Done(OutcomeView::Status { enabled: false, healthy: false })
            },
    {
        if enabled {
            Step::Connect(Connecting { intent: Intent::Probe })
        } else {
            Step::Done(Outcome::Status(CacheStatus::new(false, false)))
        }
    }
}

impl Encoding {
    /// Takes the serialized value, or `None` if the value could not be
    /// serialized.
    pub fn on_encoded(self, payload: Option<Vec<u8>>) -> (next: Step)
        ensures
            next@ == self@.encoded(
                match payload {
                    Some(value) => Some(value@),
                    None => None,
                },
            ),
    {
        match payload {
            None => Step::Done(Outcome::Degraded(CacheErrorKind::EncodeFailed)),
            Some(value) => {
                let request = match self.ttl {
                    Some(seconds) => Request::SetEx { key: self.key, ttl: seconds, value },
                    None => Request::Persist { key: self.key, value },
                };
                Step::Connect(Connecting { intent: Intent::Write { request } })
            },
        }
    }
}

impl Connecting {
    /// Takes whether a connection was acquired.
    pub fn on_connection(self, acquired: bool, stats: &mut Stats) -> (next: Step)
        ensures
            next@ == self@.connected(acquired),
            final(stats)@ == settle(old(stats)@, self@.counted(), next@),
    {
        match self.intent {
            Intent::Read { key, counted } => {
                if acquired {
                    Step::Read(Reading { key, counted })
                } else {
                    degrade(CacheErrorKind::ConnectionFailed, counted, stats)
                }
            },
            Intent::Write { request } => {
                if acquired {
                    Step::Write(Writing { request })
                } else {
                    Step::Done(Outcome::Degraded(CacheErrorKind::ConnectionFailed))
                }
            },
            Intent::Probe => Step::Done(Outcome::Status(CacheStatus::new(true, acquired))),
        }
    }
}

impl Reading {
    /// The command to send: `GET` on the entry's key.
    pub fn request(&self) -> (request: Request)
        ensures
            request@ == (RequestView::Get { key: self.held_key() }),
    {
        Request::Get { key: self.key.clone() }
    }

    /// Takes the store's reply: the payload, or `None` if the command failed.
    pub fn on_reply(self, reply: Option<Vec<u8>>, stats: &mut Stats) -> (next: Step)
        ensures
            next@ == self@.read_replied(
                match reply {
                    Some(payload) => Some(payload@),
                    None => None,
                },
            ),
            final(stats)@ == settle(old(stats)@, self@.counted(), next@),
    {
        match reply {
            Some(payload) => Step::Decode(Decoding { payload, counted: self.counted }),
            None => degrade(CacheErrorKind::BackendError, self.counted, stats),
        }
    }
}

impl Writing {
    /// The command to send.
    pub fn request(&self) -> (request: &Request)
        ensures
            request@ == self.held_request(),
    {
        &self.request
    }

    /// Takes whether the store accepted the command.
    pub fn on_reply(self, accepted: bool) -> (next: Step)
        ensures
            next@ == self@.write_replied(accepted),
    {
        if !accepted {
            Step::Done(Outcome::Degraded(CacheErrorKind::BackendError))
        } else {
            match self.request {
                Request::Del { .. } => Step::Done(Outcome::Deleted),
                _ => Step::Done(Outcome::Stored),
            }
        }
    }
}

impl Decoding {
    /// The payload to deserialize.
    pub fn payload(&self) -> (payload: &Vec<u8>)
        ensures
            payload@ == self.held_payload(),
    {
        &self.payload
    }

    /// Takes whether the payload deserialized to the requested type.
    pub fn on_decoded(self, accepted: bool, stats: &mut Stats) -> (next: Step)
        ensures
            next@ == self@.decoded(accepted),
            final(stats)@ == settle(old(stats)@, self@.counted(), next@),
    {
        if accepted {
            settle_stats(stats, self.counted, true);
            Step::Done(Outcome::Hit { payload: self.payload })
        } else {
            degrade(CacheErrorKind::DecodeFailed, self.counted, stats)
        }
    }
}

} // verus!
