//! Deterministic helpers of the demonstration scenario: scripted timestamps,
//! sequential identities and append sequences, a non-cryptographic content
//! fingerprint, and the names of the scenario's steps and outcomes.
use vstd::prelude::*;
use crate::contracts::ObjectId;
use crate::event_engine::{AppendSequenceGenerator, EventIdGenerator};
use crate::event_types::{AppendSequence, EventId, EventTimestamp};
use crate::object_runtime::ObjectIdGenerator;
use crate::process_types::{TransactionId, TransactionTimestamp};
use crate::text::{append_decimal, append_zero_padded, decimal, push_char, zero_padded};

verus! {

/// The fallback timestamp for an offset in seconds after ten o'clock:
/// `2026-07-15T10:`, the minutes and the seconds each padded to two digits, `Z`.
pub open spec fn fallback_timestamp(offset: u64) -> Seq<char> {
    "2026-07-15T10:"@ + zero_padded((offset / 60) as nat, 2) + seq![':'] + zero_padded((offset % 60) as nat, 2) + seq!['Z']
}

/// A clock that hands out scripted timestamps, then one-second steps from
/// `2026-07-15T10:00:00Z`.
#[derive(Debug)]
pub struct DeterministicClock {
    scripted: Vec<String>,
    cursor: usize,
    fallback_offset_seconds: u64,
}

impl DeterministicClock {
    /// The scripted timestamps not yet handed out.
    pub closed spec fn remaining(&self) -> Seq<Seq<char>> {
        self.scripted@.skip(self.cursor as int).map_values(|s: String| s@)
    }

    /// Seconds after ten o'clock of the next fallback timestamp.
    pub closed spec fn offset(&self) -> u64 {
        self.fallback_offset_seconds
    }

    #[verifier::type_invariant]
    closed spec fn cursor_in_range(&self) -> bool {
        self.cursor <= self.scripted@.len()
    }

    /// Creates a clock that first hands out `scripted`, in order.
    pub fn new(scripted: &Vec<&str>) -> (r: Self)
        ensures
            r.remaining() == scripted@.map_values(|s: &str| s@),
            r.offset() == 0,
    {
        let mut out: Vec<String> = Vec::new();
        let n = scripted.len();
        let mut i: usize = 0;
        while i < n
            invariant
                n == scripted@.len(),
                i <= n,
                out@.len() == i,
                forall|k: int| 0 <= k < i ==> (#[trigger] out@[k])@ == scripted@[k]@,
            decreases n - i,
        {
            out.push(String::from_str(scripted[i]));
            i = i + 1;
        }
        let r = DeterministicClock { scripted: out, cursor: 0, fallback_offset_seconds: 0 };
        assert(r.remaining() =~= scripted@.map_values(|s: &str| s@));
        r
    }

    /// The demonstration clock: ten scripted timestamps, one second apart,
    /// from `2026-07-15T10:00:00Z`.
    pub fn demo() -> (r: Self)
        ensures
            r.remaining().len() == 10,
            forall|i: int| 0 <= i < 10 ==> #[trigger] r.remaining()[i] == fallback_timestamp(i as u64),
            r.offset() == 0,
    {
        let mut out: Vec<String> = Vec::new();
        let mut i: u64 = 0;
        while i < 10
            invariant
                i <= 10,
                out@.len() == i,
                forall|k: int| 0 <= k < i ==> (#[trigger] out@[k])@ == fallback_timestamp(k as u64),
            decreases 10 - i,
        {
            out.push(fallback_text(i));
            i = i + 1;
        }
        let r = DeterministicClock { scripted: out, cursor: 0, fallback_offset_seconds: 0 };
        assert(r.scripted@.skip(0) =~= r.scripted@);
        r
    }

    /// Returns the next scripted timestamp, or the next fallback timestamp
    /// once the script is used up.
    pub fn next_timestamp(&mut self) -> (r: String)
        requires
            old(self).remaining().len() > 0 || old(self).offset() < u64::MAX,
        ensures
            old(self).remaining().len() > 0 ==> r@ == old(self).remaining()[0] && final(self).remaining()
                == old(self).remaining().drop_first() && final(self).offset() == old(self).offset(),
            old(self).remaining().len() == 0 ==> r@ == fallback_timestamp(old(self).offset()) && final(self).remaining()
                == old(self).remaining() && final(self).offset() == old(self).offset() + 1,
    {
        proof {
            use_type_invariant(&*self);
        }
        if self.cursor < self.scripted.len() {
            let t = self.scripted[self.cursor].clone();
            let ghost before = self.remaining();
            self.cursor = self.cursor + 1;
            proof {
                assert(self.remaining() =~= before.drop_first());
            }
            return t;
        }
        let t = fallback_text(self.fallback_offset_seconds);
        self.fallback_offset_seconds = self.fallback_offset_seconds + 1;
        t
    }

    /// Returns the next timestamp as an Event timestamp.
    pub fn next_event_timestamp(&mut self) -> (r: EventTimestamp)
        requires
            old(self).remaining().len() > 0 || old(self).offset() < u64::MAX,
        ensures
            old(self).remaining().len() > 0 ==> r@ == old(self).remaining()[0] && final(self).remaining()
                == old(self).remaining().drop_first() && final(self).offset() == old(self).offset(),
            old(self).remaining().len() == 0 ==> r@ == fallback_timestamp(old(self).offset()) && final(self).remaining()
                == old(self).remaining() && final(self).offset() == old(self).offset() + 1,
    {
        let t = self.next_timestamp();
        EventTimestamp::new(t.as_str())
    }

    /// Returns the next timestamp as a Transaction timestamp.
    pub fn next_transaction_timestamp(&mut self) -> (r: TransactionTimestamp)
        requires
            old(self).remaining().len() > 0 || old(self).offset() < u64::MAX,
        ensures
            old(self).remaining().len() > 0 ==> r@ == old(self).remaining()[0] && final(self).remaining()
                == old(self).remaining().drop_first() && final(self).offset() == old(self).offset(),
            old(self).remaining().len() == 0 ==> r@ == fallback_timestamp(old(self).offset()) && final(self).remaining()
                == old(self).remaining() && final(self).offset() == old(self).offset() + 1,
    {
        let t = self.next_timestamp();
        TransactionTimestamp::new(t.as_str())
    }
}

fn fallback_text(offset: u64) -> (r: String)
    ensures
        r@ == fallback_timestamp(offset),
{
    let mut s = String::from_str("2026-07-15T10:");
    append_zero_padded(&mut s, offset / 60, 2);
    push_char(&mut s, ':');
    append_zero_padded(&mut s, offset % 60, 2);
    push_char(&mut s, 'Z');
    assert(s@ =~= fallback_timestamp(offset));
    s
}

impl Default for DeterministicClock {
    fn default() -> (r: Self)
        ensures
            r.remaining().len() == 10,
            r.offset() == 0,
    {
        DeterministicClock::demo()
    }
}

/// FNV-1a over bytes: start from the 64-bit offset basis, then for each byte
/// xor it in and multiply by the 64-bit prime, modulo 2^64.
pub open spec fn fnv1a(bytes: Seq<u8>) -> u64
    decreases bytes.len(),
{
    if bytes.len() == 0 {
        0xcbf2_9ce4_8422_2325
    } else {
        let h = fnv1a(bytes.drop_last()) ^ (bytes.last() as u64);
        ((h as nat * 0x100_0000_01b3nat) % 0x1_0000_0000_0000_0000nat) as u64
    }
}

/// The lower-case hexadecimal digit of a value below sixteen.
pub open spec fn hex_digit(d: u64) -> char {
    if d < 10 {
        (('0' as u8) + d as u8) as char
    } else {
        (('a' as u8) + (d - 10) as u8) as char
    }
}

/// The sixteen lower-case hexadecimal digits of a 64-bit value, most significant first.
pub open spec fn hex16(n: u64) -> Seq<char> {
    Seq::new(16, |i: int| hex_digit((n >> ((60 - 4 * i) as u64)) & 15))
}

/// The demonstration content fingerprint: `demo-noncrypto-`, the FNV-1a hash
/// in sixteen hexadecimal digits, `-`, and the content length.
pub open spec fn demo_hash_token(content: Seq<u8>) -> Seq<char> {
    "demo-noncrypto-"@ + hex16(fnv1a(content)) + seq!['-'] + decimal(content.len())
}

/// A deterministic, non-cryptographic content fingerprint provider for the
/// demonstration; it can be told to fail.
#[derive(Clone, Copy, Debug)]
pub struct DemoCryptographicProvider {
    fail_hash: bool,
}

impl Default for DemoCryptographicProvider {
    fn default() -> (r: Self)
        ensures
            !r.fails(),
    {
        DemoCryptographicProvider { fail_hash: false }
    }
}

impl DemoCryptographicProvider {
    /// Whether the provider fails every hash.
    pub closed spec fn fails(&self) -> bool {
        self.fail_hash
    }

    /// Creates a provider whose hashes always fail.
    pub fn with_hash_failure() -> (r: Self)
        ensures
            r.fails(),
    {
        DemoCryptographicProvider { fail_hash: true }
    }

    /// Returns the fingerprint of canonical content, or the injected failure.
    pub fn hash(&mut self, canonical_content: &[u8]) -> (r: Result<String, String>)
        ensures
            *final(self) == *old(self),
            old(self).fails() ==> (r matches Err(m) && m@ == "injected demo hash failure"@),
            !old(self).fails() ==> (r matches Ok(h) && h@ == demo_hash_token(canonical_content@)),
    {
        if self.fail_hash {
            return Err(String::from_str("injected demo hash failure"));
        }
        let mut h: u64 = 0xcbf2_9ce4_8422_2325;
        let n = canonical_content.len();
        let mut i: usize = 0;
        while i < n
            invariant
                n == canonical_content@.len(),
                i <= n,
                h == fnv1a(canonical_content@.take(i as int)),
            decreases n - i,
        {
            proof {
                assert(canonical_content@.take(i + 1).drop_last() =~= canonical_content@.take(i as int));
            }
            h = h ^ (canonical_content[i] as u64);
            h = h.wrapping_mul(0x100_0000_01b3);
            i = i + 1;
        }
        proof {
            assert(canonical_content@.take(n as int) =~= canonical_content@);
        }
        let mut s = String::from_str("demo-noncrypto-");
        let ghost start = s@;
        let mut k: u64 = 0;
        while k < 16
            invariant
                k <= 16,
                s@ == start + hex16(h).take(k as int),
            decreases 16 - k,
        {
            let shift: u64 = 60 - 4 * k;
            let d = (h >> shift) & 15;
            assert(d <= 15) by (bit_vector)
                requires
                    d == (h >> shift) & 15,
            ;
            let c = if d < 10 {
                (('0' as u8) + d as u8) as char
            } else {
                (('a' as u8) + (d - 10) as u8) as char
            };
            push_char(&mut s, c);
            proof {
                assert(hex16(h)[k as int] == c);
                assert(s@ =~= start + hex16(h).take(k + 1));
            }
            k = k + 1;
        }
        push_char(&mut s, '-');
        append_decimal(&mut s, n as u64);
        proof {
            assert(hex16(h).take(16) =~= hex16(h));
            assert(s@ =~= demo_hash_token(canonical_content@));
        }
        Ok(s)
    }
}

/// The identity at a position: the prefix, `-`, and the position padded to four digits.
pub open spec fn sequential_id(prefix: Seq<char>, n: u64) -> Seq<char> {
    prefix + seq!['-'] + zero_padded(n as nat, 4)
}

fn sequential_text(prefix: &str, n: u64) -> (r: String)
    ensures
        r@ == sequential_id(prefix@, n),
{
    let mut s = String::from_str(prefix);
    push_char(&mut s, '-');
    append_zero_padded(&mut s, n, 4);
    assert(s@ =~= sequential_id(prefix@, n));
    s
}

/// Sequential Object identities: prefix, `-`, and a four-digit counter.
#[derive(Debug)]
pub struct DeterministicObjectIds {
    prefix: String,
    next: u64,
}

impl DeterministicObjectIds {
    /// The identity prefix.
    pub closed spec fn prefix(&self) -> Seq<char> {
        self.prefix@
    }

    /// The counter of the next identity.
    pub closed spec fn next(&self) -> u64 {
        self.next
    }

    /// Creates a source whose first identity has counter one.
    pub fn new(prefix: &str) -> (r: Self)
        ensures
            r.prefix() == prefix@,
            r.next() == 1,
    {
        DeterministicObjectIds { prefix: String::from_str(prefix), next: 1 }
    }

    /// Creates a source whose first identity has counter `next`.
    pub fn with_start(prefix: &str, next: u64) -> (r: Self)
        ensures
            r.prefix() == prefix@,
            r.next() == next,
    {
        DeterministicObjectIds { prefix: String::from_str(prefix), next }
    }
}

impl ObjectIdGenerator for DeterministicObjectIds {
    /// Returns the identity with the current counter and advances the
    /// counter; it stays at its maximum once there.
    fn next_id(&mut self) -> (r: ObjectId)
        ensures
            r@ == sequential_id(old(self).prefix(), old(self).next()),
            final(self).prefix() == old(self).prefix(),
            old(self).next() < u64::MAX ==> final(self).next() == old(self).next() + 1,
    {
        let s = sequential_text(self.prefix.as_str(), self.next);
        if self.next < u64::MAX {
            self.next = self.next + 1;
        }
        ObjectId::new(s.as_str())
    }
}

/// Sequential Event identities: prefix, `-`, and a four-digit counter.
#[derive(Debug)]
pub struct DeterministicEventIds {
    prefix: String,
    next: u64,
}

impl DeterministicEventIds {
    /// The identity prefix.
    pub closed spec fn prefix(&self) -> Seq<char> {
        self.prefix@
    }

    /// The counter of the next identity.
    pub closed spec fn next(&self) -> u64 {
        self.next
    }

    /// Creates a source whose first identity has counter one.
    pub fn new(prefix: &str) -> (r: Self)
        ensures
            r.prefix() == prefix@,
            r.next() == 1,
    {
        DeterministicEventIds { prefix: String::from_str(prefix), next: 1 }
    }

    /// Creates a source whose first identity has counter `next`.
    pub fn with_start(prefix: &str, next: u64) -> (r: Self)
        ensures
            r.prefix() == prefix@,
            r.next() == next,
    {
        DeterministicEventIds { prefix: String::from_str(prefix), next }
    }
}

impl EventIdGenerator for DeterministicEventIds {
    /// Returns the identity with the current counter and advances the
    /// counter; it stays at its maximum once there.
    fn next_id(&mut self) -> (r: EventId)
        ensures
            r@ == sequential_id(old(self).prefix(), old(self).next()),
            final(self).prefix() == old(self).prefix(),
            old(self).next() < u64::MAX ==> final(self).next() == old(self).next() + 1,
    {
        let s = sequential_text(self.prefix.as_str(), self.next);
        if self.next < u64::MAX {
            self.next = self.next + 1;
        }
        EventId::new(s.as_str())
    }
}

/// Sequential Transaction identities: prefix, `-`, and a four-digit counter.
#[derive(Debug)]
pub struct DeterministicTransactionIds {
    prefix: String,
    next: u64,
}

impl DeterministicTransactionIds {
    /// The identity prefix.
    pub closed spec fn prefix(&self) -> Seq<char> {
        self.prefix@
    }

    /// The counter of the next identity.
    pub closed spec fn next(&self) -> u64 {
        self.next
    }

    /// Creates a source whose first identity has counter one.
    pub fn new(prefix: &str) -> (r: Self)
        ensures
            r.prefix() == prefix@,
            r.next() == 1,
    {
        DeterministicTransactionIds { prefix: String::from_str(prefix), next: 1 }
    }

    /// Creates a source whose first identity has counter `next`.
    pub fn with_start(prefix: &str, next: u64) -> (r: Self)
        ensures
            r.prefix() == prefix@,
            r.next() == next,
    {
        DeterministicTransactionIds { prefix: String::from_str(prefix), next }
    }

    /// Returns the identity with the current counter and advances the counter.
    pub fn next_id(&mut self) -> (r: TransactionId)
        requires
            old(self).next() < u64::MAX,
        ensures
            r@ == sequential_id(old(self).prefix(), old(self).next()),
            final(self).prefix() == old(self).prefix(),
            final(self).next() == old(self).next() + 1,
    {
        let s = sequential_text(self.prefix.as_str(), self.next);
        self.next = self.next + 1;
        TransactionId::new(s.as_str())
    }
}

/// Sequential append sequences.
#[derive(Debug)]
pub struct DeterministicAppendSequences {
    next: u64,
}

impl DeterministicAppendSequences {
    /// The next sequence.
    pub closed spec fn next(&self) -> u64 {
        self.next
    }

    /// Creates a source whose first sequence is one.
    pub fn new() -> (r: Self)
        ensures
            r.next() == 1,
    {
        DeterministicAppendSequences { next: 1 }
    }

    /// Creates a source whose first sequence is `next`.
    pub fn with_start(next: u64) -> (r: Self)
        ensures
            r.next() == next,
    {
        DeterministicAppendSequences { next }
    }
}

impl Default for DeterministicAppendSequences {
    fn default() -> (r: Self)
        ensures
            r.next() == 1,
    {
        DeterministicAppendSequences::new()
    }
}

impl AppendSequenceGenerator for DeterministicAppendSequences {
    /// Returns the current sequence and advances; it stays at its maximum once there.
    fn next_sequence(&mut self) -> (r: AppendSequence)
        ensures
            r@ == old(self).next(),
            old(self).next() < u64::MAX ==> final(self).next() == old(self).next() + 1,
    {
        let s = AppendSequence::new(self.next);
        if self.next < u64::MAX {
            self.next = self.next + 1;
        }
        s
    }
}

/// Steps of the demonstration scenario.
#[derive(Clone, Copy, Debug, Eq, PartialEq, Structural)]
pub enum StepId {
    /// Validate the asset input.
    ValidateAssetInput,
    /// Register the metadata.
    RegisterMetadata,
    /// Create the asset Object.
    CreateAssetObject,
    /// Append the asset-registered Event.
    AppendAssetRegisteredEvent,
    /// Append the registration Transaction.
    AppendRegistrationTransaction,
    /// Validate the calibration input.
    ValidateCalibrationInput,
    /// Append the calibration-performed Event.
    AppendCalibrationPerformedEvent,
    /// Append the calibration-accepted Event.
    AppendCalibrationAcceptedEvent,
    /// Stage the calibration Object update.
    StageCalibrationObjectUpdate,
    /// Stage the calibration Transaction.
    StageCalibrationTransaction,
    /// Commit the calibration Unit of Work.
    CommitCalibrationUnitOfWork,
}

/// The report name of a step.
pub open spec fn step_name(step: StepId) -> Seq<char> {
    match step {
        StepId::ValidateAssetInput => "validate_asset_input"@,
        StepId::RegisterMetadata => "register_metadata"@,
        StepId::CreateAssetObject => "create_asset_object"@,
        StepId::AppendAssetRegisteredEvent => "append_asset_registered_event"@,
        StepId::AppendRegistrationTransaction => "append_registration_transaction"@,
        StepId::ValidateCalibrationInput => "validate_calibration_input"@,
        StepId::AppendCalibrationPerformedEvent => "append_calibration_performed_event"@,
        StepId::AppendCalibrationAcceptedEvent => "append_calibration_accepted_event"@,
        StepId::StageCalibrationObjectUpdate => "stage_calibration_object_update"@,
        StepId::StageCalibrationTransaction => "stage_calibration_transaction"@,
        StepId::CommitCalibrationUnitOfWork => "commit_calibration_unit_of_work"@,
    }
}

impl StepId {
    /// Returns the report name of the step.
    pub fn as_str(&self) -> (r: &'static str)
        ensures
            r@ == step_name(*self),
    {
        match self {
            StepId::ValidateAssetInput => "validate_asset_input",
            StepId::RegisterMetadata => "register_metadata",
            StepId::CreateAssetObject => "create_asset_object",
            StepId::AppendAssetRegisteredEvent => "append_asset_registered_event",
            StepId::AppendRegistrationTransaction => "append_registration_transaction",
            StepId::ValidateCalibrationInput => "validate_calibration_input",
            StepId::AppendCalibrationPerformedEvent => "append_calibration_performed_event",
            StepId::AppendCalibrationAcceptedEvent => "append_calibration_accepted_event",
            StepId::StageCalibrationObjectUpdate => "stage_calibration_object_update",
            StepId::StageCalibrationTransaction => "stage_calibration_transaction",
            StepId::CommitCalibrationUnitOfWork => "commit_calibration_unit_of_work",
        }
    }
}

/// Consistency of a demonstration operation.
#[derive(Clone, Copy, Debug, Eq, PartialEq, Structural)]
pub enum ConsistencyStatus {
    /// Every step completed.
    Complete,
    /// Some writes completed before a later step failed.
    PartiallyCompleted,
    /// A step failed before anything was written.
    FailedBeforeMutation,
}

/// The report name of a consistency status.
pub open spec fn status_name(status: ConsistencyStatus) -> Seq<char> {
    match status {
        ConsistencyStatus::Complete => "Complete"@,
        ConsistencyStatus::PartiallyCompleted => "PartiallyCompleted"@,
        ConsistencyStatus::FailedBeforeMutation => "FailedBeforeMutation"@,
    }
}

impl ConsistencyStatus {
    /// Returns the report name of the status.
    pub fn as_str(&self) -> (r: &'static str)
        ensures
            r@ == status_name(*self),
    {
        match self {
            ConsistencyStatus::Complete => "Complete",
            ConsistencyStatus::PartiallyCompleted => "PartiallyCompleted",
            ConsistencyStatus::FailedBeforeMutation => "FailedBeforeMutation",
        }
    }
}

/// The items joined by commas, or `none` when there are none.
pub open spec fn listed(items: Seq<Seq<char>>) -> Seq<char> {
    if items.len() == 0 {
        "none"@
    } else {
        comma_joined(items)
    }
}

/// The items joined by commas.
pub open spec fn comma_joined(items: Seq<Seq<char>>) -> Seq<char>
    decreases items.len(),
{
    if items.len() <= 1 {
        if items.len() == 1 {
            items[0]
        } else {
            Seq::empty()
        }
    } else {
        comma_joined(items.drop_last()) + seq![','] + items.last()
    }
}

/// Abstract contents of an operation outcome.
pub struct OperationOutcomeView {
    pub completed_steps: Seq<StepId>,
    pub failed_step: Option<StepId>,
    pub created_object_id: Option<Seq<char>>,
    pub created_event_ids: Seq<Seq<char>>,
    pub created_transaction_ids: Seq<Seq<char>>,
    pub consistency_status: ConsistencyStatus,
    pub recovery_guidance: Seq<char>,
}

/// The command-line report of an outcome: one `label: value` line per
/// field, in a fixed order.
pub open spec fn report_text(o: OperationOutcomeView) -> Seq<char> {
    "consistency_status: "@ + status_name(o.consistency_status)
        + "\ncompleted_steps: "@ + listed(o.completed_steps.map_values(|s: StepId| step_name(s)))
        + "\nfailed_step: "@ + (match o.failed_step { Some(s) => step_name(s), None => "none"@ })
        + "\ncreated_object_id: "@ + (match o.created_object_id { Some(id) => id, None => "none"@ })
        + "\ncreated_event_ids: "@ + listed(o.created_event_ids)
        + "\ncreated_transaction_ids: "@ + listed(o.created_transaction_ids)
        + "\nrecovery_guidance: "@ + o.recovery_guidance
}

/// What a demonstration operation completed, created and left behind.
#[derive(Clone, Debug)]
pub struct OperationOutcome {
    /// Steps that completed, in order.
    pub completed_steps: Vec<StepId>,
    /// The step that failed, if any.
    pub failed_step: Option<StepId>,
    /// The Object created, if any.
    pub created_object_id: Option<ObjectId>,
    /// The Events created, in order.
    pub created_event_ids: Vec<EventId>,
    /// The Transactions created, in order.
    pub created_transaction_ids: Vec<TransactionId>,
    /// How consistent the written state is.
    pub consistency_status: ConsistencyStatus,
    /// What an operator should do next.
    pub recovery_guidance: String,
}

impl View for OperationOutcome {
    type V = OperationOutcomeView;

    open spec fn view(&self) -> OperationOutcomeView {
        OperationOutcomeView {
            completed_steps: self.completed_steps@,
            failed_step: self.failed_step,
            created_object_id: match self.created_object_id {
                Some(id) => Some(id@),
                None => None,
            },
            created_event_ids: self.created_event_ids@.map_values(|id: EventId| id@),
            created_transaction_ids: self.created_transaction_ids@.map_values(|id: TransactionId| id@),
            consistency_status: self.consistency_status,
            recovery_guidance: self.recovery_guidance@,
        }
    }
}

/// The outcome before any step: nothing completed or created, failed
/// before mutation, no guidance.
pub open spec fn initial_outcome() -> OperationOutcomeView {
    OperationOutcomeView {
        completed_steps: Seq::empty(),
        failed_step: None,
        created_object_id: None,
        created_event_ids: Seq::empty(),
        created_transaction_ids: Seq::empty(),
        consistency_status: ConsistencyStatus::FailedBeforeMutation,
        recovery_guidance: Seq::empty(),
    }
}

fn append_listed(out: &mut String, items: &Vec<String>)
    ensures
        final(out)@ == old(out)@ + listed(items@.map_values(|s: String| s@)),
{
    let ghost views = items@.map_values(|s: String| s@);
    if items.len() == 0 {
        out.append("none");
        return;
    }
    let ghost start = out@;
    out.append(items[0].as_str());
    let mut i: usize = 1;
    while i < items.len()
        invariant
            1 <= i <= items@.len(),
            views == items@.map_values(|s: String| s@),
            out@ == start + comma_joined(views.take(i as int)),
        decreases items@.len() - i,
    {
        out.append(",");
        out.append(items[i].as_str());
        proof {
            reveal_strlit(",");
            assert(views.take(i + 1).drop_last() =~= views.take(i as int));
            assert(views.take(i + 1).last() == items@[i as int]@);
        }
        i = i + 1;
    }
    proof {
        assert(views.take(items@.len() as int) =~= views);
    }
}

impl OperationOutcome {
    /// An outcome with nothing completed or created, failed before mutation.
    pub fn new() -> (r: Self)
        ensures
            r@ == initial_outcome(),
    {
        let r = OperationOutcome {
            completed_steps: Vec::new(),
            failed_step: None,
            created_object_id: None,
            created_event_ids: Vec::new(),
            created_transaction_ids: Vec::new(),
            consistency_status: ConsistencyStatus::FailedBeforeMutation,
            recovery_guidance: String::new(),
        };
        assert(r@.created_event_ids =~= Seq::<Seq<char>>::empty());
        assert(r@.created_transaction_ids =~= Seq::<Seq<char>>::empty());
        r
    }

    /// Reports whether every step completed.
    pub fn is_complete(&self) -> (b: bool)
        ensures
            b == (self.consistency_status == ConsistencyStatus::Complete),
    {
        match self.consistency_status {
            ConsistencyStatus::Complete => true,
            _ => false,
        }
    }

    /// An outcome that failed at `failed_step` before anything was written.
    pub fn fail_before_mutation(failed_step: StepId, recovery_guidance: &str) -> (r: Self)
        ensures
            r@ == (OperationOutcomeView {
                failed_step: Some(failed_step),
                recovery_guidance: recovery_guidance@,
                ..initial_outcome()
            }),
    {
        let mut r = Self::new();
        r.failed_step = Some(failed_step);
        r.recovery_guidance = String::from_str(recovery_guidance);
        r
    }

    /// Marks the operation complete, with no failed step.
    pub fn mark_complete(&mut self, recovery_guidance: &str)
        ensures
            final(self)@ == (OperationOutcomeView {
                failed_step: None,
                consistency_status: ConsistencyStatus::Complete,
                recovery_guidance: recovery_guidance@,
                ..old(self)@
            }),
    {
        self.failed_step = None;
        self.consistency_status = ConsistencyStatus::Complete;
        self.recovery_guidance = String::from_str(recovery_guidance);
    }

    /// Marks the operation partially completed, failed at `failed_step`.
    pub fn mark_partial(&mut self, failed_step: StepId, recovery_guidance: &str)
        ensures
            final(self)@ == (OperationOutcomeView {
                failed_step: Some(failed_step),
                consistency_status: ConsistencyStatus::PartiallyCompleted,
                recovery_guidance: recovery_guidance@,
                ..old(self)@
            }),
    {
        self.failed_step = Some(failed_step);
        self.consistency_status = ConsistencyStatus::PartiallyCompleted;
        self.recovery_guidance = String::from_str(recovery_guidance);
    }

    /// Renders the outcome as the command-line report: one `label: value`
    /// line per field, lists joined by commas, `none` for what is absent.
    pub fn to_cli_report(&self) -> (r: String)
        ensures
            r@ == report_text(self@),
    {
        let mut steps: Vec<String> = Vec::new();
        let mut i: usize = 0;
        while i < self.completed_steps.len()
            invariant
                i <= self.completed_steps@.len(),
                steps@.len() == i,
                forall|k: int| 0 <= k < i ==> (#[trigger] steps@[k])@ == step_name(self.completed_steps@[k]),
            decreases self.completed_steps@.len() - i,
        {
            steps.push(String::from_str(self.completed_steps[i].as_str()));
            i = i + 1;
        }
        let mut events: Vec<String> = Vec::new();
        let mut i: usize = 0;
        while i < self.created_event_ids.len()
            invariant
                i <= self.created_event_ids@.len(),
                events@.len() == i,
                forall|k: int| 0 <= k < i ==> (#[trigger] events@[k])@ == self.created_event_ids@[k]@,
            decreases self.created_event_ids@.len() - i,
        {
            events.push(String::from_str(self.created_event_ids[i].as_str()));
            i = i + 1;
        }
        let mut transactions: Vec<String> = Vec::new();
        let mut i: usize = 0;
        while i < self.created_transaction_ids.len()
            invariant
                i <= self.created_transaction_ids@.len(),
                transactions@.len() == i,
                forall|k: int| 0 <= k < i ==> (#[trigger] transactions@[k])@ == self.created_transaction_ids@[k]@,
            decreases self.created_transaction_ids@.len() - i,
        {
            transactions.push(String::from_str(self.created_transaction_ids[i].as_str()));
            i = i + 1;
        }
        proof {
            assert(steps@.map_values(|s: String| s@) =~= self@.completed_steps.map_values(|s: StepId| step_name(s)));
            assert(events@.map_values(|s: String| s@) =~= self@.created_event_ids);
            assert(transactions@.map_values(|s: String| s@) =~= self@.created_transaction_ids);
        }
        let mut out = String::from_str("consistency_status: ");
        out.append(self.consistency_status.as_str());
        out.append("\ncompleted_steps: ");
        append_listed(&mut out, &steps);
        out.append("\nfailed_step: ");
        match &self.failed_step {
            Some(step) => out.append(step.as_str()),
            None => out.append("none"),
        }
        out.append("\ncreated_object_id: ");
        match &self.created_object_id {
            Some(id) => out.append(id.as_str()),
            None => out.append("none"),
        }
        out.append("\ncreated_event_ids: ");
        append_listed(&mut out, &events);
        out.append("\ncreated_transaction_ids: ");
        append_listed(&mut out, &transactions);
        out.append("\nrecovery_guidance: ");
        out.append(self.recovery_guidance.as_str());
        proof {
            assert(out@ =~= report_text(self@));
        }
        out
    }
}

impl Default for OperationOutcome {
    fn default() -> (r: Self)
        ensures
            r@ == initial_outcome(),
    {
        Self::new()
    }
}

/// A step's failure message: `context` followed by the error.
pub open spec fn guidance(context: Seq<char>, error: Seq<char>) -> Seq<char> {
    context + error
}

/// The guidance when the registration Event could not be appended after the
/// Object was created.
pub open spec fn event_failure_guidance(object_id: Seq<char>, error: Seq<char>) -> Seq<char> {
    concat_texts(
        seq![
            "asset object "@,
            object_id,
            " exists, but the registration event was not appended: "@,
            error,
            ". Next safe step: inspect the object and append the missing registration event; do not delete immutable records."@,
        ],
    )
}

/// The guidance when the registration Transaction could not be appended
/// after the Object and the Event were created.
pub open spec fn transaction_failure_guidance(object_id: Seq<char>, event_id: Seq<char>, error: Seq<char>) -> Seq<
    char,
> {
    concat_texts(
        seq![
            "asset object "@,
            object_id,
            " and event "@,
            event_id,
            " exist, but the Level1 registration transaction was not appended: "@,
            error,
            ". Next safe step: append the missing registration transaction referencing no prior transaction; do not delete immutable records."@,
        ],
    )
}

fn joined_text(parts: &Vec<&str>) -> (r: String)
    ensures
        r@ == concat_texts(parts@.map_values(|p: &str| p@)),
{
    let ghost views = parts@.map_values(|p: &str| p@);
    let mut out = String::new();
    let n = parts.len();
    let mut i: usize = 0;
    proof {
        assert(views.take(0) =~= Seq::<Seq<char>>::empty());
    }
    while i < n
        invariant
            n == parts@.len(),
            views == parts@.map_values(|p: &str| p@),
            i <= n,
            out@ == concat_texts(views.take(i as int)),
        decreases n - i,
    {
        out.append(parts[i]);
        proof {
            assert(views.take(i + 1).drop_last() =~= views.take(i as int));
        }
        i = i + 1;
    }
    proof {
        assert(views.take(n as int) =~= views);
    }
    out
}

/// The texts joined with nothing between them.
pub open spec fn concat_texts(parts: Seq<Seq<char>>) -> Seq<char>
    decreases parts.len(),
{
    if parts.len() == 0 {
        Seq::empty()
    } else {
        concat_texts(parts.drop_last()) + parts.last()
    }
}

/// Starts an asset registration from the input check: a refused input fails
/// before anything is written; an accepted one records the check as done.
pub fn begin_registration(validation: Result<(), String>) -> (r: OperationOutcome)
    ensures
        validation matches Err(m) ==> r@ == (OperationOutcomeView {
            failed_step: Some(StepId::ValidateAssetInput),
            recovery_guidance: m@,
            ..initial_outcome()
        }),
        validation is Ok ==> r@ == (OperationOutcomeView {
            completed_steps: seq![StepId::ValidateAssetInput],
            ..initial_outcome()
        }),
{
    match validation {
        Err(m) => OperationOutcome::fail_before_mutation(StepId::ValidateAssetInput, m.as_str()),
        Ok(()) => {
            let mut outcome = OperationOutcome::new();
            outcome.completed_steps.push(StepId::ValidateAssetInput);
            outcome
        },
    }
}

/// Records the metadata registration step; returns whether registration goes on.
pub fn record_metadata_registration(outcome: &mut OperationOutcome, result: Result<(), String>) -> (go_on: bool)
    ensures
        go_on == result is Ok,
        result is Ok ==> final(outcome)@ == (OperationOutcomeView {
            completed_steps: old(outcome)@.completed_steps.push(StepId::RegisterMetadata),
            ..old(outcome)@
        }),
        result matches Err(e) ==> final(outcome)@ == (OperationOutcomeView {
            failed_step: Some(StepId::RegisterMetadata),
            consistency_status: ConsistencyStatus::PartiallyCompleted,
            recovery_guidance: guidance("metadata registration failed before asset records were created: "@, e@),
            ..old(outcome)@
        }),
{
    match result {
        Ok(()) => {
            outcome.completed_steps.push(StepId::RegisterMetadata);
            true
        },
        Err(e) => {
            let mut m = String::from_str("metadata registration failed before asset records were created: ");
            m.append(e.as_str());
            outcome.mark_partial(StepId::RegisterMetadata, m.as_str());
            false
        },
    }
}

/// Records the asset Object creation step; returns whether registration goes on.
pub fn record_object_creation(outcome: &mut OperationOutcome, result: Result<ObjectId, String>) -> (go_on: bool)
    ensures
        go_on == result is Ok,
        result matches Ok(id) ==> final(outcome)@ == (OperationOutcomeView {
            completed_steps: old(outcome)@.completed_steps.push(StepId::CreateAssetObject),
            created_object_id: Some(id@),
            ..old(outcome)@
        }),
        result matches Err(e) ==> final(outcome)@ == (OperationOutcomeView {
            failed_step: Some(StepId::CreateAssetObject),
            consistency_status: ConsistencyStatus::PartiallyCompleted,
            recovery_guidance: guidance("object creation failed before event or transaction append: "@, e@),
            ..old(outcome)@
        }),
{
    match result {
        Ok(id) => {
            outcome.completed_steps.push(StepId::CreateAssetObject);
            outcome.created_object_id = Some(id);
            true
        },
        Err(e) => {
            let mut m = String::from_str("object creation failed before event or transaction append: ");
            m.append(e.as_str());
            outcome.mark_partial(StepId::CreateAssetObject, m.as_str());
            false
        },
    }
}

/// Records the asset-registered Event step; returns whether registration goes on.
/// A failure names the Object already created and the next safe step.
pub fn record_registered_event(outcome: &mut OperationOutcome, result: Result<EventId, String>) -> (go_on: bool)
    requires
        old(outcome).created_object_id is Some,
    ensures
        go_on == result is Ok,
        result matches Ok(id) ==> final(outcome)@ == (OperationOutcomeView {
            completed_steps: old(outcome)@.completed_steps.push(StepId::AppendAssetRegisteredEvent),
            created_event_ids: old(outcome)@.created_event_ids.push(id@),
            ..old(outcome)@
        }),
        result matches Err(e) ==> final(outcome)@ == (OperationOutcomeView {
            failed_step: Some(StepId::AppendAssetRegisteredEvent),
            consistency_status: ConsistencyStatus::PartiallyCompleted,
            recovery_guidance: event_failure_guidance(old(outcome)@.created_object_id.unwrap(), e@),
            ..old(outcome)@
        }),
{
    match result {
        Ok(id) => {
            outcome.created_event_ids.push(id);
            outcome.completed_steps.push(StepId::AppendAssetRegisteredEvent);
            proof {
                assert(outcome@.created_event_ids =~= old(outcome)@.created_event_ids.push(id@));
            }
            true
        },
        Err(e) => {
            let object_id = match &outcome.created_object_id {
                Some(id) => id.as_str(),
                None => "",
            };
            let parts = vec![
                "asset object ",
                object_id,
                " exists, but the registration event was not appended: ",
                e.as_str(),
                ". Next safe step: inspect the object and append the missing registration event; do not delete immutable records.",
            ];
            let m = joined_text(&parts);
            proof {
                assert(parts@.map_values(|p: &str| p@) =~= seq![
                    "asset object "@,
                    old(outcome)@.created_object_id.unwrap(),
                    " exists, but the registration event was not appended: "@,
                    e@,
                    ". Next safe step: inspect the object and append the missing registration event; do not delete immutable records."@,
                ]);
            }
            outcome.mark_partial(StepId::AppendAssetRegisteredEvent, m.as_str());
            false
        },
    }
}

/// Records the registration Transaction step, completing the registration
/// on success. A failure names the Object and Event already created and the
/// next safe step.
pub fn record_registration_transaction(outcome: &mut OperationOutcome, result: Result<TransactionId, String>)
    requires
        old(outcome).created_object_id is Some,
        old(outcome).created_event_ids.len() > 0,
    ensures
        result matches Ok(id) ==> final(outcome)@ == (OperationOutcomeView {
            completed_steps: old(outcome)@.completed_steps.push(StepId::AppendRegistrationTransaction),
            created_transaction_ids: old(outcome)@.created_transaction_ids.push(id@),
            failed_step: None,
            consistency_status: ConsistencyStatus::Complete,
            recovery_guidance: "asset registration complete; all sequential records were created."@,
            ..old(outcome)@
        }),
        result matches Err(e) ==> final(outcome)@ == (OperationOutcomeView {
            failed_step: Some(StepId::AppendRegistrationTransaction),
            consistency_status: ConsistencyStatus::PartiallyCompleted,
            recovery_guidance: transaction_failure_guidance(
                old(outcome)@.created_object_id.unwrap(),
                old(outcome)@.created_event_ids.last(),
                e@,
            ),
            ..old(outcome)@
        }),
{
    match result {
        Ok(id) => {
            outcome.created_transaction_ids.push(id);
            outcome.completed_steps.push(StepId::AppendRegistrationTransaction);
            outcome.mark_complete("asset registration complete; all sequential records were created.");
            proof {
                assert(outcome@.created_transaction_ids =~= old(outcome)@.created_transaction_ids.push(id@));
            }
        },
        Err(e) => {
            let object_id = match &outcome.created_object_id {
                Some(id) => id.as_str(),
                None => "",
            };
            let last = outcome.created_event_ids.len() - 1;
            let event_id = outcome.created_event_ids[last].as_str();
            let parts = vec![
                "asset object ",
                object_id,
                " and event ",
                event_id,
                " exist, but the Level1 registration transaction was not appended: ",
                e.as_str(),
                ". Next safe step: append the missing registration transaction referencing no prior transaction; do not delete immutable records.",
            ];
            let m = joined_text(&parts);
            proof {
                assert(parts@.map_values(|p: &str| p@) =~= seq![
                    "asset object "@,
                    old(outcome)@.created_object_id.unwrap(),
                    " and event "@,
                    old(outcome)@.created_event_ids.last(),
                    " exist, but the Level1 registration transaction was not appended: "@,
                    e@,
                    ". Next safe step: append the missing registration transaction referencing no prior transaction; do not delete immutable records."@,
                ]);
            }
            outcome.mark_partial(StepId::AppendRegistrationTransaction, m.as_str());
        },
    }
}

} // verus!
