//! Decoded events and the per-message decode/enrichment pipeline.
//!
//! One raw message decodes into a sequence of framed records; each record
//! yields zero or more events or a decode failure. A recoverable failure lets
//! decoding resume on the remainder of the same message; a terminal one
//! abandons the remainder of that message only. Every event that survives is
//! enriched with standard ingestion metadata before handoff.

use vstd::prelude::*;
use vstd::string::StringExecFns;

verus! {

/// One structured record decoded from a raw message.
#[derive(Debug)]
pub struct LogEvent {
    /// The decoded record body.
    pub payload: Vec<u8>,
    /// Ingestion timestamp, in milliseconds since the epoch, once enriched.
    pub timestamp_millis: Option<i64>,
    /// Identity of the source that ingested the record, once enriched.
    pub source_type: Option<String>,
}

/// Mathematical model of a `LogEvent`.
#[verifier::ext_equal]
pub ghost struct LogEventModel {
    pub payload: Seq<u8>,
    pub timestamp_millis: Option<i64>,
    pub source_type: Option<Seq<char>>,
}

impl View for LogEvent {
    type V = LogEventModel;

    open spec fn view(&self) -> LogEventModel {
        LogEventModel {
            payload: self.payload@,
            timestamp_millis: self.timestamp_millis,
            source_type: match self.source_type {
                Some(ref s) => Some(s@),
                None => None,
            },
        }
    }
}

impl DeepView for LogEvent {
    type V = LogEventModel;

    open spec fn deep_view(&self) -> LogEventModel {
        self.view()
    }
}

/// Outcome of decoding one framed record of a raw message.
#[derive(Debug)]
pub enum DecodeStep {
    /// The record decoded into these events.
    Records(Vec<LogEvent>),
    /// The record was malformed; decoding of the same message may resume
    /// only if the failure is continuable.
    Failure {
        /// Whether the decoder can continue scanning the remaining bytes.
        continuable: bool,
    },
}

/// Mathematical model of a `DecodeStep`.
#[verifier::ext_equal]
pub ghost enum DecodeStepModel {
    Records(Seq<LogEventModel>),
    Failure { continuable: bool },
}

impl View for DecodeStep {
    type V = DecodeStepModel;

    open spec fn view(&self) -> DecodeStepModel {
        match self {
            DecodeStep::Records(evs) => DecodeStepModel::Records(evs.deep_view()),
            DecodeStep::Failure { continuable } => DecodeStepModel::Failure {
                continuable: *continuable,
            },
        }
    }
}

impl DeepView for DecodeStep {
    type V = DecodeStepModel;

    open spec fn deep_view(&self) -> DecodeStepModel {
        self.view()
    }
}

/// The events a raw message contributes: every event of every record decoded
/// before the first non-continuable failure; records behind a continuable
/// failure still contribute, the remainder behind a terminal one is abandoned.
pub open spec fn decoded_events(steps: Seq<DecodeStepModel>) -> Seq<LogEventModel>
    decreases steps.len(),
{
    if steps.len() == 0 {
        Seq::empty()
    } else {
        match steps[0] {
            DecodeStepModel::Records(evs) => evs + decoded_events(steps.skip(1)),
            DecodeStepModel::Failure { continuable } => if continuable {
                decoded_events(steps.skip(1))
            } else {
                Seq::empty()
            },
        }
    }
}

/// Collect the events of one raw message from its per-record decode outcomes,
/// abandoning the remainder after a non-continuable failure.
pub fn collect_decoded(steps: Vec<DecodeStep>) -> (events: Vec<LogEvent>)
    ensures
        events.deep_view() == decoded_events(steps.deep_view()),
{
    let mut events: Vec<LogEvent> = Vec::new();
    let mut rest = steps;
    loop
        invariant
            decoded_events(steps.deep_view()) == events.deep_view() + decoded_events(
                rest.deep_view(),
            ),
        decreases rest.len(),
    {
        if rest.len() == 0 {
            proof {
                assert(events.deep_view() + decoded_events(rest.deep_view())
                    =~= events.deep_view());
            }
            return events;
        }
        let ghost pre_deep = rest.deep_view();
        let step = rest.remove(0);
        proof {
            assert(rest.deep_view() =~= pre_deep.skip(1));
            assert(step.deep_view() == pre_deep[0]);
        }
        match step {
            DecodeStep::Records(mut evs) => {
                let ghost pre = events.deep_view();
                let ghost evs_view = evs.deep_view();
                events.append(&mut evs);
                proof {
                    assert(events.deep_view() =~= pre + evs_view);
                    assert((pre + evs_view) + decoded_events(rest.deep_view()) =~= pre + (evs_view
                        + decoded_events(rest.deep_view())));
                }
            },
            DecodeStep::Failure { continuable } => {
                if !continuable {
                    proof {
                        assert(events.deep_view() + Seq::<LogEventModel>::empty()
                            =~= events.deep_view());
                    }
                    return events;
                }
            },
        }
    }
}

/// Standard ingestion metadata applied to one event: the source identity, and
/// the ingestion timestamp where the decoder produced none.
pub open spec fn enriched(e: LogEventModel, now_millis: i64) -> LogEventModel {
    LogEventModel {
        payload: e.payload,
        timestamp_millis: if e.timestamp_millis is None {
            Some(now_millis)
        } else {
            e.timestamp_millis
        },
        source_type: Some("pulsar"@),
    }
}

/// Enrich one event in place.
pub fn enrich(e: &mut LogEvent, now_millis: i64)
    ensures
        final(e)@ == enriched(old(e)@, now_millis),
{
    if e.timestamp_millis.is_none() {
        e.timestamp_millis = Some(now_millis);
    }
    e.source_type = Some(String::from_str("pulsar"));
}

/// Enrich every event of a batch, keeping the order.
pub fn enrich_batch(events: Vec<LogEvent>, now_millis: i64) -> (out: Vec<LogEvent>)
    ensures
        out.deep_view() == events.deep_view().map_values(
            |e: LogEventModel| enriched(e, now_millis),
        ),
{
    let mut out: Vec<LogEvent> = Vec::new();
    let mut rest = events;
    loop
        invariant
            out.deep_view() + rest.deep_view().map_values(
                |e: LogEventModel| enriched(e, now_millis),
            ) == events.deep_view().map_values(|e: LogEventModel| enriched(e, now_millis)),
        decreases rest.len(),
    {
        if rest.len() == 0 {
            proof {
                assert(out.deep_view() + rest.deep_view().map_values(
                    |e: LogEventModel| enriched(e, now_millis),
                ) =~= out.deep_view());
            }
            return out;
        }
        let ghost pre_rest = rest.deep_view();
        let ghost pre_out = out.deep_view();
        let mut e = rest.remove(0);
        enrich(&mut e, now_millis);
        out.push(e);
        proof {
            assert(rest.deep_view() =~= pre_rest.skip(1));
            assert(out.deep_view() =~= pre_out.push(enriched(pre_rest[0], now_millis)));
            assert(out.deep_view() + rest.deep_view().map_values(
                |e: LogEventModel| enriched(e, now_millis),
            ) =~= pre_out + pre_rest.map_values(|e: LogEventModel| enriched(e, now_millis)));
        }
    }
}

/// The batch one raw message hands downstream: the events its records decode
/// to, each enriched with the standard ingestion metadata.
pub fn prepare_batch(steps: Vec<DecodeStep>, now_millis: i64) -> (batch: Vec<LogEvent>)
    ensures
        batch.deep_view() == decoded_events(steps.deep_view()).map_values(
            |e: LogEventModel| enriched(e, now_millis),
        ),
{
    let events = collect_decoded(steps);
    enrich_batch(events, now_millis)
}

/// Relies on chrono::Utc::now: reads the wall clock as milliseconds since
/// the epoch. The reading depends on when the call happens, so nothing holds
/// of the value; verified callers take it as an argument. The call panics
/// only on a system clock set before the epoch, which no precondition here
/// can see.
#[verifier::external_body]
fn now_timestamp_millis() -> i64 {
    chrono::Utc::now().timestamp_millis()
}

/// The batch one raw message hands downstream, enriched at the current wall
/// clock: the prepared events together with the timestamp they carry.
pub fn prepare_batch_now(steps: Vec<DecodeStep>) -> (r: (Vec<LogEvent>, i64))
    ensures
        r.0.deep_view() == decoded_events(steps.deep_view()).map_values(
            |e: LogEventModel| enriched(e, r.1),
        ),
{
    let now = now_timestamp_millis();
    (prepare_batch(steps, now), now)
}

} // verus!
