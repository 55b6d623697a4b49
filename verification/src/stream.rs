//! The host/guest boundary protocol.
//!
//! The host writes an ordered sequence of values into the input stream and
//! the guest consumes them in the same order; the guest then appends its
//! public outputs in a fixed commit order. Both sides are written against the
//! one schema below, so read order and commit order cannot silently diverge.

use vstd::prelude::*;
use crate::errors::ProtocolError;

verus! {

/// The attestation dataset: the records under check plus nothing the guest
/// protocol reads beyond them. Immutable once loaded.
#[derive(Clone, Debug, PartialEq, Eq)]
pub struct VerificationData {
    pub records: Vec<String>,
}

impl VerificationData {
    /// How many attestation records the dataset holds.
    pub fn record_count(&self) -> (n: usize)
        ensures
            n == self.records@.len(),
    {
        self.records.len()
    }
}

/// One value on the host-to-guest input stream.
#[derive(Clone, Debug, PartialEq, Eq)]
pub enum StreamValue {
    Key(String),
    Data(VerificationData),
}

/// The ordered input stream. The host appends at the back; the guest reads
/// from the front, so write order equals read order.
pub struct InputStream {
    pub items: Vec<StreamValue>,
}

/// One value the guest commits to the proof's public values.
#[derive(Clone, Debug, PartialEq, Eq)]
pub enum Committed {
    Key(String),
    Records(Vec<String>),
}

/// The guest's public outputs, in commit order. The append order defines the
/// binary layout every downstream decoder must match.
#[derive(Clone, Debug, PartialEq, Eq)]
pub struct PublicValues {
    pub items: Vec<Committed>,
}

impl InputStream {
    /// An empty stream.
    pub fn new() -> (s: Self)
        ensures
            s.items@ == Seq::<StreamValue>::empty(),
    {
        InputStream { items: Vec::new() }
    }

    /// Appends one value; everything written earlier is read earlier.
    pub fn write(&mut self, v: StreamValue)
        ensures
            final(self).items@ == old(self).items@.push(v),
    {
        self.items.push(v);
    }
}

/// Writes the two guest inputs in the order the guest reads them: the
/// verifying key first, then the dataset.
pub fn load_inputs(stdin: &mut InputStream, key: String, data: VerificationData)
    ensures
        final(stdin).items@ == old(stdin).items@.push(StreamValue::Key(key)).push(
            StreamValue::Data(data),
        ),
{
    stdin.write(StreamValue::Key(key));
    stdin.write(StreamValue::Data(data));
}

/// What the guest commits for a given input stream: the verifying key, then
/// the records — or the error when the stream is short or out of order.
pub open spec fn guest_output(items: Seq<StreamValue>) -> Result<Seq<Committed>, ProtocolError> {
    if items.len() < 2 {
        Err(ProtocolError::InputExhausted)
    } else {
        match (items[0], items[1]) {
            (StreamValue::Key(k), StreamValue::Data(d)) => Ok(
                seq![Committed::Key(k), Committed::Records(d.records)],
            ),
            _ => Err(ProtocolError::SchemaMismatch),
        }
    }
}

/// The guest commitment program. It reads the verifying key and the dataset
/// in that order, receives the attestation check's outcome from the
/// verification library, and commits the key and the records in that order.
///
/// As shipped, the committed outputs do not depend on `attestation_ok`: a
/// rejected attestation still yields the identical public values, so a proof
/// alone cannot distinguish "verified" from "checked and rejected". The
/// contract makes that visible by never mentioning the outcome.
pub fn guest_run(stdin: &mut InputStream, attestation_ok: bool) -> (r: Result<
    PublicValues,
    ProtocolError,
>)
    ensures
        match (r, guest_output(old(stdin).items@)) {
            (Ok(pv), Ok(s)) => pv.items@ == s && final(stdin).items@ == old(
                stdin,
            ).items@.skip(2),
            (Err(e), Err(e2)) => e == e2 && final(stdin).items@ == old(stdin).items@,
            _ => false,
        },
{
    if stdin.items.len() < 2 {
        return Err(ProtocolError::InputExhausted);
    }
    let shape_ok = match (&stdin.items[0], &stdin.items[1]) {
        (StreamValue::Key(_), StreamValue::Data(_)) => true,
        _ => false,
    };
    if !shape_ok {
        return Err(ProtocolError::SchemaMismatch);
    }
    let first = stdin.items.remove(0);
    let second = stdin.items.remove(0);
    let _ = attestation_ok;
    match (first, second) {
        (StreamValue::Key(k), StreamValue::Data(d)) => {
            let mut pv = PublicValues { items: Vec::new() };
            pv.items.push(Committed::Key(k));
            pv.items.push(Committed::Records(d.records));
            proof {
                assert(final(stdin).items@ =~= old(stdin).items@.skip(2));
            }
            Ok(pv)
        },
        _ => {
            proof {
                assert(false);
            }
            Err(ProtocolError::SchemaMismatch)
        },
    }
}

/// One run over freshly loaded inputs: builds the stream in write order and
/// runs the guest on it. Because the stream holds exactly what the guest
/// expects, the run always succeeds and commits the key and the records.
pub fn execute_guest(key: String, data: VerificationData, attestation_ok: bool) -> (r: Result<
    PublicValues,
    ProtocolError,
>)
    ensures
        r matches Ok(pv) && pv.items@ == seq![
            Committed::Key(key),
            Committed::Records(data.records),
        ],
{
    let mut stdin = InputStream::new();
    proof {
        assert(stdin.items@.push(StreamValue::Key(key)).push(StreamValue::Data(data)) =~= seq![
            StreamValue::Key(key),
            StreamValue::Data(data),
        ]);
    }
    load_inputs(&mut stdin, key, data);
    guest_run(&mut stdin, attestation_ok)
}

/// Round trip of the boundary protocol: a stream holding exactly the key and
/// the dataset, in write order, makes the guest commit that key and those
/// records, in commit order.
pub proof fn lemma_protocol_round_trip(key: String, data: VerificationData)
    ensures
        guest_output(seq![StreamValue::Key(key), StreamValue::Data(data)]) == Ok::<
            Seq<Committed>,
            ProtocolError,
        >(seq![Committed::Key(key), Committed::Records(data.records)]),
{
}

/// Determinism of the guest: its public outputs are a function of the input
/// stream alone, so two runs on identical streams commit identical values.
pub proof fn lemma_guest_deterministic(a: Seq<StreamValue>, b: Seq<StreamValue>)
    requires
        a == b,
    ensures
        guest_output(a) == guest_output(b),
{
}

} // verus!
