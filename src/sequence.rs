use vstd::prelude::*;
use crate::record::{metric_head, Payload, PayloadMetric};
use crate::types::MetricDataType;
use crate::value::WireField;

verus! {

/// Largest value a sequence counter takes before it wraps back to zero.
pub const SEQ_MAX: u64 = 255;

/// The value that follows `n` on a counter that wraps to zero after 255.
pub open spec fn wrap_next(n: nat) -> nat {
    if n >= 255 { 0 } else { n + 1 }
}

/// The counter's value after `k` advances from zero.
pub open spec fn seq_after(k: nat) -> nat
    decreases k,
{
    if k == 0 { 0 } else { wrap_next(seq_after((k - 1) as nat)) }
}

/// Advancing a counter from zero gives 0, 1, ..., 255 and then 0 again: the
/// value after `k` advances is `k` modulo 256.
pub proof fn lemma_seq_wraps(k: nat)
    ensures
        seq_after(k) == k % 256,
    decreases k,
{
    if k > 0 {
        lemma_seq_wraps((k - 1) as nat);
        assert(seq_after(k) == wrap_next(((k - 1) as nat) % 256));
        if ((k - 1) as nat) % 256 == 255 {
            assert(k % 256 == 0);
        } else {
            assert(k % 256 == ((k - 1) as nat) % 256 + 1);
        }
    }
}

/// The metric that carries the birth/death sequence number `value`.
pub open spec fn is_bd_seq_metric(m: PayloadMetric, value: u64, timestamp: u64) -> bool {
    &&& m.name is Some
    &&& m.name->Some_0@ == "bdSeq"@
    &&& m == (PayloadMetric {
        value: Some(WireField::Long(value)),
        ..metric_head(MetricDataType::Int64, m.name->Some_0, None, None, timestamp)
    })
}

/// A death certificate for the birth/death epoch `bd_seq`.
pub open spec fn is_death_payload(p: Payload, bd_seq: u64, timestamp: u64) -> bool {
    &&& p.uuid is None
    &&& p.timestamp == timestamp
    &&& p.seq is None
    &&& p.body is None
    &&& p.metrics.len() == 1
    &&& is_bd_seq_metric(p.metrics[0], bd_seq, timestamp)
}

/// A birth certificate for the epoch `bd_seq`, with data sequence number zero.
pub open spec fn is_birth_payload(p: Payload, bd_seq: u64, timestamp: u64) -> bool {
    &&& p.uuid is None
    &&& p.timestamp == timestamp
    &&& p.seq == Some(0u64)
    &&& p.body is None
    &&& p.metrics.len() == 1
    &&& is_bd_seq_metric(p.metrics[0], bd_seq, timestamp)
}

/// Process-wide sequencing state: the data sequence `seq` and the
/// birth/death sequence `bd_seq`, each kept in `0..=255`.
pub struct SequenceState {
    pub seq: u64,
    pub bd_seq: u64,
}

/// A death certificate taken from a state, then a birth certificate taken from
/// the same state: the birth announces the epoch after the death's, modulo
/// 256, and restarts the data sequence at zero.
pub proof fn lemma_death_then_birth(s: SequenceState, death: Payload, birth: Payload, t1: u64, t2: u64)
    requires
        s.wf(),
        is_death_payload(death, s.bd_seq, t1),
        is_birth_payload(birth, wrap_next(s.bd_seq as nat) as u64, t2),
    ensures
        death.metrics[0].value == Some(WireField::Long(s.bd_seq)),
        birth.metrics[0].value == Some(WireField::Long(((s.bd_seq + 1) % 256) as u64)),
        birth.seq == Some(0u64),
{
}

fn bd_seq_metric(value: u64, timestamp: u64) -> (r: PayloadMetric)
    ensures
        is_bd_seq_metric(r, value, timestamp),
{
    let name = "bdSeq".to_owned();
    PayloadMetric {
        name: Some(name),
        alias: None,
        timestamp,
        datatype: MetricDataType::Int64,
        is_historical: None,
        is_transient: None,
        is_null: false,
        value: Some(WireField::Long(value)),
        metadata: None,
        properties: None,
    }
}

impl SequenceState {
    pub open spec fn wf(&self) -> bool {
        self.seq <= SEQ_MAX && self.bd_seq <= SEQ_MAX
    }

    /// Both counters at zero.
    pub fn new() -> (r: SequenceState)
        ensures
            r.wf(),
            r.seq == 0,
            r.bd_seq == 0,
    {
        SequenceState { seq: 0, bd_seq: 0 }
    }

    /// Returns the current data sequence number and advances it, wrapping after 255.
    pub fn next_seq(&mut self) -> (r: u64)
        requires
            old(self).wf(),
        ensures
            final(self).wf(),
            r == old(self).seq,
            final(self).seq == wrap_next(old(self).seq as nat),
            final(self).bd_seq == old(self).bd_seq,
    {
        let r = self.seq;
        if self.seq >= SEQ_MAX {
            self.seq = 0;
        } else {
            self.seq = self.seq + 1;
        }
        r
    }

    /// Returns the current birth/death sequence number and advances it,
    /// wrapping after 255.
    pub fn next_bd_seq(&mut self) -> (r: u64)
        requires
            old(self).wf(),
        ensures
            final(self).wf(),
            r == old(self).bd_seq,
            final(self).bd_seq == wrap_next(old(self).bd_seq as nat),
            final(self).seq == old(self).seq,
    {
        let r = self.bd_seq;
        if self.bd_seq >= SEQ_MAX {
            self.bd_seq = 0;
        } else {
            self.bd_seq = self.bd_seq + 1;
        }
        r
    }

    /// The death certificate of the current epoch, stamped `timestamp`; the
    /// counters are left as they are.
    pub fn get_node_death_payload(&self, timestamp: u64) -> (r: Payload)
        requires
            self.wf(),
        ensures
            is_death_payload(r, self.bd_seq, timestamp),
    {
        let metric = bd_seq_metric(self.bd_seq, timestamp);
        let mut metrics: Vec<PayloadMetric> = Vec::new();
        metrics.push(metric);
        Payload { uuid: None, timestamp, seq: None, metrics, body: None }
    }

    /// The birth certificate of the next epoch, stamped `timestamp`: the
    /// birth/death number advances and is announced, and the data sequence
    /// restarts, the payload taking its number zero.
    pub fn get_node_birth_payload(&mut self, timestamp: u64) -> (r: Payload)
        requires
            old(self).wf(),
        ensures
            final(self).wf(),
            final(self).bd_seq == wrap_next(old(self).bd_seq as nat),
            final(self).seq == 1,
            is_birth_payload(r, final(self).bd_seq, timestamp),
    {
        self.seq = 0;
        let seq = self.next_seq();
        self.next_bd_seq();
        let metric = bd_seq_metric(self.bd_seq, timestamp);
        let mut metrics: Vec<PayloadMetric> = Vec::new();
        metrics.push(metric);
        Payload { uuid: None, timestamp, seq: Some(seq), metrics, body: None }
    }

    /// A device birth payload stamped `timestamp`, taking the next data
    /// sequence number.
    pub fn get_device_birth_payload(&mut self, timestamp: u64) -> (r: Payload)
        requires
            old(self).wf(),
        ensures
            final(self).wf(),
            final(self).seq == wrap_next(old(self).seq as nat),
            final(self).bd_seq == old(self).bd_seq,
            r == (Payload { uuid: None, timestamp, seq: Some(old(self).seq), metrics: r.metrics, body: None }),
            r.metrics.len() == 0,
    {
        let seq = self.next_seq();
        Payload { uuid: None, timestamp, seq: Some(seq), metrics: Vec::new(), body: None }
    }

    /// A device data payload: laid out as a device birth payload.
    pub fn get_d_data_payload(&mut self, timestamp: u64) -> (r: Payload)
        requires
            old(self).wf(),
        ensures
            final(self).wf(),
            final(self).seq == wrap_next(old(self).seq as nat),
            final(self).bd_seq == old(self).bd_seq,
            r == (Payload { uuid: None, timestamp, seq: Some(old(self).seq), metrics: r.metrics, body: None }),
            r.metrics.len() == 0,
    {
        self.get_device_birth_payload(timestamp)
    }
}

} // verus!
