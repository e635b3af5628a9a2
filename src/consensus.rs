use vstd::prelude::*;
use crate::validation::bytes_equal;

verus! {

/// Binds an authority to its seat in a historical session.
#[derive(Clone, Copy, Debug, PartialEq, Eq, Structural)]
pub struct KeyOwnershipProof {
    pub session: u64,
    pub position: u64,
}

/// Two conflicting signed statements by one authority for one round.
#[derive(Clone, Debug)]
pub struct EquivocationProof {
    pub offender: u64,
    pub session: u64,
    pub round: u64,
    pub first: Vec<u8>,
    pub second: Vec<u8>,
}

/// The identity of a penalized offence: one offender, one session, one round.
#[derive(Clone, Copy, Debug, PartialEq, Eq, Structural)]
pub struct OffenceKey {
    pub offender: u64,
    pub session: u64,
    pub round: u64,
}

#[derive(Clone, Copy, Debug, PartialEq, Eq, Structural)]
pub enum ReportOutcome {
    /// The offence was new and has been penalized.
    Penalized,
    /// The offence was penalized before; nothing changed.
    AlreadyReported,
}

#[derive(Clone, Copy, Debug, PartialEq, Eq, Structural)]
pub enum ReportError {
    InvalidKeyOwnershipProof,
    InvalidEquivocationProof,
}

/// The authority sets of past sessions, oldest first.
pub open spec fn member_at(history: Seq<Seq<u64>>, session: int, position: int, authority: u64) -> bool {
    0 <= session < history.len() && 0 <= position < history[session].len() && history[session][position] == authority
}

pub open spec fn history_view(history: &Vec<Vec<u64>>) -> Seq<Seq<u64>> {
    history@.map_values(|s: Vec<u64>| s@)
}

/// Produces a proof binding `authority` to the latest session in which it
/// was a member; `None` if it never was one.
pub fn generate_key_ownership_proof(history: &Vec<Vec<u64>>, authority: u64) -> (r: Option<KeyOwnershipProof>)
    ensures
        r is None <==> !(exists|s: int, p: int| member_at(history_view(history), s, p, authority)),
        r matches Some(k) ==> member_at(history_view(history), k.session as int, k.position as int, authority),
        r matches Some(k) ==> forall|s: int, p: int|
            member_at(history_view(history), s, p, authority) ==> s <= k.session,
{
    let mut s: usize = history.len();
    while s > 0
        invariant
            s <= history@.len(),
            forall|s2: int, p: int| s <= s2 ==> !member_at(history_view(history), s2, p, authority),
        decreases s,
    {
        s = s - 1;
        let set = &history[s];
        let mut p: usize = 0;
        while p < set.len()
            invariant
                s < history@.len(),
                set@ == history@[s as int]@,
                p <= set@.len(),
                forall|p2: int| 0 <= p2 < p ==> set@[p2] != authority,
                forall|s2: int, p2: int| s < s2 ==> !member_at(history_view(history), s2, p2, authority),
            decreases set@.len() - p,
        {
            if set[p] == authority {
                assert(history_view(history)[s as int] == set@);
                assert(member_at(history_view(history), s as int, p as int, authority));
                return Some(KeyOwnershipProof { session: s as u64, position: p as u64 });
            }
            p = p + 1;
        }
        proof {
            assert forall|s2: int, p2: int| s <= s2 implies !member_at(history_view(history), s2, p2, authority) by {
                if s2 == s as int && member_at(history_view(history), s2, p2, authority) {
                    assert(history_view(history)[s2] == set@);
                    assert(set@[p2] == authority);
                }
            }
        }
    }
    None
}

pub open spec fn offence_of(proof: &EquivocationProof) -> OffenceKey {
    OffenceKey { offender: proof.offender, session: proof.session, round: proof.round }
}

/// The outcome of a report against the penalized offences so far, and the
/// offences afterwards.
pub open spec fn report_spec(history: Seq<Seq<u64>>, penalized: Seq<OffenceKey>, proof: &EquivocationProof, key: KeyOwnershipProof) -> (Seq<OffenceKey>, Result<ReportOutcome, ReportError>) {
    if key.session != proof.session || !member_at(history, key.session as int, key.position as int, proof.offender) {
        (penalized, Err(ReportError::InvalidKeyOwnershipProof))
    } else if proof.first@ == proof.second@ {
        (penalized, Err(ReportError::InvalidEquivocationProof))
    } else if penalized.contains(offence_of(proof)) {
        (penalized, Ok(ReportOutcome::AlreadyReported))
    } else {
        (penalized.push(offence_of(proof)), Ok(ReportOutcome::Penalized))
    }
}

/// Checks the ownership proof and the conflicting statements and, for a new
/// offence, records the penalty. Signatures are verified by the host.
pub fn submit_equivocation_report(history: &Vec<Vec<u64>>, penalized: &mut Vec<OffenceKey>, proof: &EquivocationProof, key: KeyOwnershipProof) -> (r: Result<ReportOutcome, ReportError>)
    ensures
        (final(penalized)@, r) == report_spec(history_view(history), old(penalized)@, proof, key),
{
    if key.session != proof.session || key.session >= history.len() as u64 {
        return Err(ReportError::InvalidKeyOwnershipProof);
    }
    let set = &history[key.session as usize];
    assert(history_view(history)[key.session as int] == set@);
    if key.position >= set.len() as u64 || set[key.position as usize] != proof.offender {
        return Err(ReportError::InvalidKeyOwnershipProof);
    }
    if bytes_equal(&proof.first, &proof.second) {
        return Err(ReportError::InvalidEquivocationProof);
    }
    assert(member_at(history_view(history), key.session as int, key.position as int, proof.offender));
    let offence = OffenceKey { offender: proof.offender, session: proof.session, round: proof.round };
    let mut i: usize = 0;
    while i < penalized.len()
        invariant
            i <= penalized@.len(),
            offence == offence_of(proof),
            forall|j: int| 0 <= j < i ==> penalized@[j] != offence,
            penalized@ == old(penalized)@,
            key.session == proof.session,
            member_at(history_view(history), key.session as int, key.position as int, proof.offender),
            proof.first@ != proof.second@,
        decreases penalized@.len() - i,
    {
        if penalized[i] == offence {
            assert(penalized@.contains(offence));
            return Ok(ReportOutcome::AlreadyReported);
        }
        i = i + 1;
    }
    penalized.push(offence);
    Ok(ReportOutcome::Penalized)
}

/// Reporting is idempotent: once a report has been accepted, the identical
/// report succeeds again and changes nothing.
pub proof fn lemma_report_idempotent(history: Seq<Seq<u64>>, penalized: Seq<OffenceKey>, proof: &EquivocationProof, key: KeyOwnershipProof)
    requires
        report_spec(history, penalized, proof, key).1 is Ok,
    ensures
        ({
            let after = report_spec(history, penalized, proof, key).0;
            report_spec(history, after, proof, key) == (after, Ok::<ReportOutcome, ReportError>(ReportOutcome::AlreadyReported))
        }),
{
    let after = report_spec(history, penalized, proof, key).0;
    if !penalized.contains(offence_of(proof)) {
        assert(after[penalized.len() as int] == offence_of(proof));
    }
}

/// The roles of the public keys in a session-key bundle, in encoding order.
#[derive(Clone, Copy, Debug, PartialEq, Eq, Structural)]
pub enum KeyRole {
    Grandpa,
    Babe,
    ImOnline,
    AuthorityDiscovery,
}

/// Length of each public key in a session-key bundle.
pub const PUBLIC_KEY_LEN: usize = 32;

/// Number of keys in a session-key bundle.
pub const SESSION_KEY_COUNT: usize = 4;

pub open spec fn role_at(i: int) -> KeyRole {
    if i == 0 {
        KeyRole::Grandpa
    } else if i == 1 {
        KeyRole::Babe
    } else if i == 2 {
        KeyRole::ImOnline
    } else {
        KeyRole::AuthorityDiscovery
    }
}

#[derive(Clone, Debug)]
pub struct SessionKey {
    pub role: KeyRole,
    pub public: Vec<u8>,
}

fn role_for(i: usize) -> (r: KeyRole)
    ensures
        r == role_at(i as int),
{
    if i == 0 {
        KeyRole::Grandpa
    } else if i == 1 {
        KeyRole::Babe
    } else if i == 2 {
        KeyRole::ImOnline
    } else {
        KeyRole::AuthorityDiscovery
    }
}

/// Splits an encoded bundle into its typed public keys; `None` unless the
/// encoding is exactly the fixed schema's length.
pub fn decode_session_keys(encoded: &Vec<u8>) -> (r: Option<Vec<SessionKey>>)
    ensures
        r is Some <==> encoded@.len() == SESSION_KEY_COUNT * PUBLIC_KEY_LEN,
        r matches Some(keys) ==> keys@.len() == SESSION_KEY_COUNT && forall|i: int| 0 <= i < SESSION_KEY_COUNT ==> {
            &&& #[trigger] keys@[i].role == role_at(i)
            &&& keys@[i].public@ == encoded@.subrange(i * PUBLIC_KEY_LEN, (i + 1) * PUBLIC_KEY_LEN)
        },
{
    if encoded.len() != SESSION_KEY_COUNT * PUBLIC_KEY_LEN {
        return None;
    }
    let mut keys: Vec<SessionKey> = Vec::new();
    let mut k: usize = 0;
    while k < SESSION_KEY_COUNT
        invariant
            encoded@.len() == SESSION_KEY_COUNT * PUBLIC_KEY_LEN,
            k <= SESSION_KEY_COUNT,
            keys@.len() == k,
            forall|i: int| 0 <= i < k ==> {
                &&& #[trigger] keys@[i].role == role_at(i)
                &&& keys@[i].public@ == encoded@.subrange(i * PUBLIC_KEY_LEN, (i + 1) * PUBLIC_KEY_LEN)
            },
        decreases SESSION_KEY_COUNT - k,
    {
        let start: usize = k * PUBLIC_KEY_LEN;
        let mut public: Vec<u8> = Vec::new();
        let mut j: usize = 0;
        while j < PUBLIC_KEY_LEN
            invariant
                encoded@.len() == SESSION_KEY_COUNT * PUBLIC_KEY_LEN,
                k < SESSION_KEY_COUNT,
                start == k * PUBLIC_KEY_LEN,
                j <= PUBLIC_KEY_LEN,
                public@ == encoded@.subrange(start as int, start + j),
            decreases PUBLIC_KEY_LEN - j,
        {
            public.push(encoded[start + j]);
            j = j + 1;
            assert(public@ =~= encoded@.subrange(start as int, start + j));
        }
        keys.push(SessionKey { role: role_for(k), public });
        k = k + 1;
    }
    Some(keys)
}

/// The result of cross-checking an included inherent against reference data.
#[derive(Clone, Copy, Debug, PartialEq, Eq, Structural)]
pub enum InherentVerdict {
    Consistent,
    /// Drifted further than the tolerance; reported, never block-rejecting.
    Warning { drift: u64 },
}

pub open spec fn abs_diff(a: u64, b: u64) -> int {
    if a >= b { a - b } else { b - a }
}

/// Compares an included timestamp with the expected one, within one slot.
pub fn check_timestamp_inherent(included: u64, expected: u64, slot_duration: u64) -> (r: InherentVerdict)
    ensures
        r == (if abs_diff(included, expected) <= slot_duration {
            InherentVerdict::Consistent
        } else {
            InherentVerdict::Warning { drift: abs_diff(included, expected) as u64 }
        }),
{
    let drift = if included >= expected { included - expected } else { expected - included };
    if drift <= slot_duration {
        InherentVerdict::Consistent
    } else {
        InherentVerdict::Warning { drift }
    }
}

/// Which slots block authors may claim.
#[derive(Clone, Copy, Debug, PartialEq, Eq, Structural)]
pub enum AllowedSlots {
    PrimarySlots,
    PrimaryAndSecondaryPlainSlots,
    PrimaryAndSecondaryVrfSlots,
}

/// `1 - numerator / denominator` is the probability that a slot has no
/// primary author.
#[derive(Clone, Copy, Debug, PartialEq, Eq, Structural)]
pub struct PrimaryProbability {
    pub numerator: u64,
    pub denominator: u64,
}

/// An authority id with its weight in slot assignment.
#[derive(Clone, Copy, Debug, PartialEq, Eq, Structural)]
pub struct WeightedAuthority {
    pub id: u64,
    pub weight: u64,
}

/// The slot-assignment parameters the host needs for leader election.
#[derive(Clone, Debug)]
pub struct EpochConfiguration {
    pub slot_duration: u64,
    pub epoch_length: u64,
    pub c: PrimaryProbability,
    pub authorities: Vec<WeightedAuthority>,
    pub randomness: Vec<u8>,
    pub allowed_slots: AllowedSlots,
}

/// Snapshots the consensus module's parameters; this runtime lets primary and
/// secondary plain slots be claimed.
pub fn epoch_configuration(slot_duration: u64, epoch_length: u64, c: PrimaryProbability, authorities: Vec<WeightedAuthority>, randomness: Vec<u8>) -> (r: EpochConfiguration)
    ensures
        r.slot_duration == slot_duration,
        r.epoch_length == epoch_length,
        r.c == c,
        r.authorities@ == authorities@,
        r.randomness@ == randomness@,
        r.allowed_slots == AllowedSlots::PrimaryAndSecondaryPlainSlots,
{
    EpochConfiguration {
        slot_duration,
        epoch_length,
        c,
        authorities,
        randomness,
        allowed_slots: AllowedSlots::PrimaryAndSecondaryPlainSlots,
    }
}

} // verus!
