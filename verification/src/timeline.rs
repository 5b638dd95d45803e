//! The timeline of an asset for the demonstration's command line: its Events
//! in append order, then its Transactions in append order.
use vstd::prelude::*;
use crate::contracts::ObjectId;
use crate::event_types::EventRecord;
use crate::presentation::{append_value, number_text_ok, number_texts_ok, property_lines, NumberText};
use crate::query_canonical::value_views;
use crate::query_execution::{is_stable_sort, lemma_insert_next, sort_state};
use crate::text::{append_decimal, decimal, KeyOrder};

verus! {

/// The order of two numbers.
pub open spec fn u64_order(a: u64, b: u64) -> KeyOrder {
    if a < b {
        KeyOrder::Less
    } else if a == b {
        KeyOrder::Equal
    } else {
        KeyOrder::Greater
    }
}

/// The order of two values by a numeric key of each.
pub open spec fn by_key<T>(key: spec_fn(T) -> u64) -> spec_fn(T, T) -> KeyOrder {
    |a: T, b: T| u64_order(key(a), key(b))
}

/// The positions `0..n`, in ascending order.
pub open spec fn positions(n: nat) -> Seq<usize> {
    Seq::new(n, |i: int| i as usize)
}

/// The order of two positions by the keys at them.
pub open spec fn key_order(keys: Seq<u64>) -> spec_fn(usize, usize) -> KeyOrder {
    by_key(|p: usize| keys[p as int])
}

/// The positions of `keys` in ascending order of their keys; positions of
/// equal keys keep their order.
pub fn stable_positions_by_key(keys: &Vec<u64>) -> (r: Vec<usize>)
    ensures
        is_stable_sort(positions(keys@.len()), r@, key_order(keys@)),
        r@.len() == keys@.len(),
        forall|k: int| 0 <= k < r@.len() ==> #[trigger] r@[k] < keys@.len(),
{
    let n = keys.len();
    let ghost orig = positions(n as nat);
    let ghost ord = key_order(keys@);
    let mut out: Vec<usize> = Vec::new();
    let ghost mut perm: Seq<int> = Seq::empty();
    let mut i: usize = 0;
    while i < n
        invariant
            n == keys@.len(),
            orig == positions(n as nat),
            ord == key_order(keys@),
            i <= n,
            sort_state(orig, out@, ord, perm, i as int),
            forall|k: int| 0 <= k < out@.len() ==> #[trigger] out@[k] < i,
        decreases n - i,
    {
        let mut j: usize = out.len();
        while j > 0 && keys[out[j - 1]] > keys[i]
            invariant
                n == keys@.len(),
                ord == key_order(keys@),
                i < n,
                j <= out@.len(),
                forall|k: int| 0 <= k < out@.len() ==> #[trigger] out@[k] < i,
                forall|m: int| j <= m < out@.len() ==> ord(#[trigger] out@[m], i) == KeyOrder::Greater,
            decreases j,
        {
            j = j - 1;
        }
        proof {
            assert(orig[i as int] == i);
            if j > 0 {
                assert(ord(out@[j - 1], i) != KeyOrder::Greater);
            }
            assert forall|m: int| j <= m < out@.len() implies ord(orig[i as int], #[trigger] out@[m]) == KeyOrder::Less by {
                assert(ord(out@[m], i) == KeyOrder::Greater);
            }
            lemma_insert_next(orig, out@, ord, perm, i as int, j as int);
            perm = perm.insert(j as int, i as int);
        }
        out.insert(j, i);
        i = i + 1;
    }
    proof {
        assert(sort_state(orig, out@, ord, perm, orig.len() as int));
    }
    out
}

/// A stable ordering of positions carries over to the values at them.
pub proof fn lemma_stable_sort_by_positions<T>(
    items: Seq<T>,
    keys: Seq<u64>,
    order: Seq<usize>,
    ord: spec_fn(T, T) -> KeyOrder,
)
    requires
        keys.len() == items.len(),
        items.len() <= usize::MAX,
        is_stable_sort(positions(items.len()), order, key_order(keys)),
        forall|a: int, b: int|
            0 <= a < items.len() && 0 <= b < items.len() ==> #[trigger] ord(items[a], items[b]) == u64_order(
                keys[a],
                keys[b],
            ),
    ensures
        is_stable_sort(items, order.map_values(|p: usize| items[p as int]), ord),
{
    let n = items.len() as int;
    let orig = positions(items.len());
    let perm = choose|perm: Seq<int>| #[trigger] sort_state(orig, order, key_order(keys), perm, n);
    let mapped = order.map_values(|p: usize| items[p as int]);
    assert forall|k: int| 0 <= k < order.len() implies #[trigger] order[k] as int == perm[k] by {
        assert(0 <= perm[k] < n);
        assert(order[k] == orig[perm[k]]);
    }
    assert forall|k: int| 0 <= k < mapped.len() implies #[trigger] mapped[k] == items[perm[k]] by {
        assert(order[k] as int == perm[k]);
    }
    assert forall|k: int| 0 <= k < mapped.len() - 1 implies #[trigger] ord(mapped[k], mapped[k + 1]) != KeyOrder::Greater by {
        assert(order[k] as int == perm[k]);
        assert(order[k + 1] as int == perm[k + 1]);
        assert(key_order(keys)(order[k], order[k + 1]) != KeyOrder::Greater);
        assert(ord(items[perm[k]], items[perm[k + 1]]) == u64_order(keys[perm[k]], keys[perm[k + 1]]));
    }
    assert forall|k: int, l: int|
        0 <= k < l < mapped.len() && ord(#[trigger] mapped[k], #[trigger] mapped[l]) == KeyOrder::Equal implies perm[k]
        < perm[l] by {
        assert(order[k] as int == perm[k]);
        assert(order[l] as int == perm[l]);
        assert(ord(items[perm[k]], items[perm[l]]) == u64_order(keys[perm[k]], keys[perm[l]]));
        assert(key_order(keys)(order[k], order[l]) == KeyOrder::Equal);
        assert(sort_state(orig, order, key_order(keys), perm, n));
    }
    assert(sort_state(items, mapped, ord, perm, n));
}

/// What a Transaction points back at.
pub enum PriorReference {
    /// An earlier Transaction, by identity.
    Transaction(String),
    /// An Event, by identity.
    Event(String),
}

/// Abstract contents of a prior reference.
pub enum PriorReferenceView {
    Transaction(Seq<char>),
    Event(Seq<char>),
}

impl View for PriorReference {
    type V = PriorReferenceView;

    open spec fn view(&self) -> PriorReferenceView {
        match self {
            PriorReference::Transaction(id) => PriorReferenceView::Transaction(id@),
            PriorReference::Event(id) => PriorReferenceView::Event(id@),
        }
    }
}

/// What a timeline shows of one Transaction record: its append index,
/// identity, level as displayed, operation, versions, edit timestamp, and the
/// optional sequence, receipt time, prior reference and hashes.
pub struct TimelineTransaction {
    pub append_index: u64,
    pub id: String,
    pub level: String,
    pub operation: String,
    pub base_version: u64,
    pub resulting_version: u64,
    pub edit_timestamp: String,
    pub transaction_sequence: Option<u64>,
    pub server_receipt_time: Option<String>,
    pub prior_reference: Option<PriorReference>,
    pub prior_transaction_hash: Option<String>,
    pub transaction_hash: Option<String>,
}

/// Abstract contents of a timeline Transaction.
pub struct TimelineTransactionView {
    pub append_index: u64,
    pub id: Seq<char>,
    pub level: Seq<char>,
    pub operation: Seq<char>,
    pub base_version: u64,
    pub resulting_version: u64,
    pub edit_timestamp: Seq<char>,
    pub transaction_sequence: Option<u64>,
    pub server_receipt_time: Option<Seq<char>>,
    pub prior_reference: Option<PriorReferenceView>,
    pub prior_transaction_hash: Option<Seq<char>>,
    pub transaction_hash: Option<Seq<char>>,
}

/// An optional string by its characters.
pub open spec fn optional_chars(o: Option<String>) -> Option<Seq<char>> {
    match o {
        Some(s) => Some(s@),
        None => None,
    }
}

impl View for TimelineTransaction {
    type V = TimelineTransactionView;

    open spec fn view(&self) -> TimelineTransactionView {
        TimelineTransactionView {
            append_index: self.append_index,
            id: self.id@,
            level: self.level@,
            operation: self.operation@,
            base_version: self.base_version,
            resulting_version: self.resulting_version,
            edit_timestamp: self.edit_timestamp@,
            transaction_sequence: self.transaction_sequence,
            server_receipt_time: optional_chars(self.server_receipt_time),
            prior_reference: match self.prior_reference {
                Some(p) => Some(p@),
                None => None,
            },
            prior_transaction_hash: optional_chars(self.prior_transaction_hash),
            transaction_hash: optional_chars(self.transaction_hash),
        }
    }
}

/// The text of an optional value, or `none`.
pub open spec fn text_or_none(o: Option<Seq<char>>) -> Seq<char> {
    match o {
        Some(t) => t,
        None => "none"@,
    }
}

/// The text of a prior reference: `transaction:` or `event:` before the
/// identity, or `none`.
pub open spec fn prior_reference_text(p: Option<PriorReferenceView>) -> Seq<char> {
    match p {
        Some(PriorReferenceView::Transaction(id)) => "transaction:"@ + id,
        Some(PriorReferenceView::Event(id)) => "event:"@ + id,
        None => "none"@,
    }
}

/// The head line of a Transaction: append index, identity, level, operation.
pub open spec fn transaction_head(t: TimelineTransactionView) -> Seq<char> {
    "  transaction "@ + decimal(t.append_index as nat) + " "@ + t.id + " level="@ + t.level + " operation="@
        + t.operation + "\n"@
}

/// The versions line of a Transaction.
pub open spec fn versions_line(t: TimelineTransactionView) -> Seq<char> {
    "    versions: "@ + decimal(t.base_version as nat) + " -> "@ + decimal(t.resulting_version as nat) + "\n"@
}

/// A detail line: the label, then the text, then a line break.
pub open spec fn detail_line(label: Seq<char>, text: Seq<char>) -> Seq<char> {
    "    "@ + label + ": "@ + text + "\n"@
}

/// The text of an optional sequence number, or `none`.
pub open spec fn sequence_text(o: Option<u64>) -> Seq<char> {
    match o {
        Some(n) => decimal(n as nat),
        None => "none"@,
    }
}

/// The lines of one Transaction on the timeline.
pub open spec fn transaction_text(t: TimelineTransactionView) -> Seq<char> {
    transaction_head(t) + versions_line(t) + detail_line("edit_timestamp"@, t.edit_timestamp) + detail_line(
        "transaction_sequence"@,
        sequence_text(t.transaction_sequence),
    ) + detail_line("server_receipt_time"@, text_or_none(t.server_receipt_time)) + detail_line(
        "prior_reference"@,
        prior_reference_text(t.prior_reference),
    ) + detail_line("prior_transaction_hash"@, text_or_none(t.prior_transaction_hash)) + detail_line(
        "transaction_hash"@,
        text_or_none(t.transaction_hash),
    )
}

/// The lines of each Transaction, in order.
pub open spec fn transaction_lines(ts: Seq<TimelineTransactionView>) -> Seq<char>
    decreases ts.len(),
{
    if ts.len() == 0 {
        Seq::empty()
    } else {
        transaction_lines(ts.drop_last()) + transaction_text(ts.last())
    }
}

/// The head line of an Event: append sequence, identity, Event Type,
/// timestamps and source.
pub open spec fn event_head(e: EventRecord) -> Seq<char> {
    "  event "@ + decimal(e.append_sequence@ as nat) + " "@ + e.id@ + " "@ + e.event_type@.name + "@"@ + decimal(
        e.event_type@.version as nat,
    ) + " occurred_at="@ + e.occurred_at@ + " recorded_at="@ + e.recorded_at@ + " source="@ + e.source@ + "\n"@
}

/// The lines of one Event on the timeline: its head line, then one line per
/// payload field in name order; `numbers` holds the text of each numeric field.
pub open spec fn event_text(e: EventRecord, numbers: Seq<Seq<char>>) -> Seq<char> {
    event_head(e) + property_lines("    "@, e.payload.keys(), value_views(e.payload), numbers)
}

/// The lines of each Event, in order.
pub open spec fn event_lines(es: Seq<EventRecord>, numbers: Seq<Seq<Seq<char>>>) -> Seq<char>
    decreases es.len(),
{
    if es.len() == 0 {
        Seq::empty()
    } else {
        event_lines(es.drop_last(), numbers.drop_last()) + event_text(es.last(), numbers.last())
    }
}

/// The Events section: the count of Events, then their lines, or `none`.
pub open spec fn events_section(events: Seq<EventRecord>, numbers: Seq<Seq<Seq<char>>>) -> Seq<char> {
    "Events ("@ + decimal(events.len()) + "; bounded Event range read, app-layer filter):\n"@ + if events.len() == 0 {
        "  none\n"@
    } else {
        event_lines(events, numbers)
    }
}

/// The Transactions section: the count of Transactions, then their lines, or `none`.
pub open spec fn transactions_section(transactions: Seq<TimelineTransactionView>) -> Seq<char> {
    "Transactions ("@ + decimal(transactions.len()) + "; bounded Transaction range read, app-layer filter):\n"@
        + if transactions.len() == 0 {
        "  none\n"@
    } else {
        transaction_lines(transactions)
    }
}

/// The timeline of an asset: its identity, then its Events section, then its
/// Transactions section.
pub open spec fn timeline_text(
    asset_id: Seq<char>,
    events: Seq<EventRecord>,
    numbers: Seq<Seq<Seq<char>>>,
    transactions: Seq<TimelineTransactionView>,
) -> Seq<char> {
    "Timeline "@ + asset_id + "\n"@ + events_section(events, numbers) + transactions_section(transactions)
}

/// The Events' order on the timeline: by append sequence.
pub open spec fn event_append_order() -> spec_fn(EventRecord, EventRecord) -> KeyOrder {
    by_key(|e: EventRecord| e.append_sequence@)
}

/// The Transactions' order on the timeline: by append index.
pub open spec fn transaction_append_order() -> spec_fn(TimelineTransactionView, TimelineTransactionView) -> KeyOrder {
    by_key(|t: TimelineTransactionView| t.append_index)
}

/// The views of timeline Transactions.
pub open spec fn transaction_views(ts: Seq<TimelineTransaction>) -> Seq<TimelineTransactionView> {
    ts.map_values(|t: TimelineTransaction| t@)
}

fn append_detail(out: &mut String, label: &str, text: &str)
    ensures
        final(out)@ == old(out)@ + detail_line(label@, text@),
{
    let ghost start = out@;
    out.append("    ");
    out.append(label);
    out.append(": ");
    out.append(text);
    out.append("\n");
    assert(out@ =~= start + detail_line(label@, text@));
}

fn optional_str(o: &Option<String>) -> (r: &str)
    ensures
        r@ == text_or_none(optional_chars(*o)),
{
    match o {
        Some(t) => t.as_str(),
        None => "none",
    }
}

fn append_transaction_head(out: &mut String, t: &TimelineTransaction)
    ensures
        final(out)@ == old(out)@ + transaction_head(t@),
{
    let ghost start = out@;
    out.append("  transaction ");
    append_decimal(out, t.append_index);
    out.append(" ");
    out.append(t.id.as_str());
    out.append(" level=");
    out.append(t.level.as_str());
    out.append(" operation=");
    out.append(t.operation.as_str());
    out.append("\n");
    assert(out@ =~= start + transaction_head(t@));
}

fn append_versions_line(out: &mut String, t: &TimelineTransaction)
    ensures
        final(out)@ == old(out)@ + versions_line(t@),
{
    let ghost start = out@;
    out.append("    versions: ");
    append_decimal(out, t.base_version);
    out.append(" -> ");
    append_decimal(out, t.resulting_version);
    out.append("\n");
    assert(out@ =~= start + versions_line(t@));
}

fn sequence_string(o: Option<u64>) -> (r: String)
    ensures
        r@ == sequence_text(o),
{
    let mut s = String::new();
    match o {
        Some(n) => append_decimal(&mut s, n),
        None => s.append("none"),
    }
    assert(s@ =~= sequence_text(o));
    s
}

fn prior_reference_string(p: &Option<PriorReference>) -> (r: String)
    ensures
        r@ == prior_reference_text(match *p {
            Some(q) => Some(q@),
            None => None,
        }),
{
    let mut s = String::new();
    match p {
        Some(PriorReference::Transaction(id)) => {
            s.append("transaction:");
            s.append(id.as_str());
        },
        Some(PriorReference::Event(id)) => {
            s.append("event:");
            s.append(id.as_str());
        },
        None => s.append("none"),
    }
    s
}

fn append_transaction(out: &mut String, t: &TimelineTransaction)
    ensures
        final(out)@ == old(out)@ + transaction_text(t@),
{
    let ghost start = out@;
    append_transaction_head(out, t);
    append_versions_line(out, t);
    append_detail(out, "edit_timestamp", t.edit_timestamp.as_str());
    let sequence = sequence_string(t.transaction_sequence);
    append_detail(out, "transaction_sequence", sequence.as_str());
    append_detail(out, "server_receipt_time", optional_str(&t.server_receipt_time));
    let prior = prior_reference_string(&t.prior_reference);
    append_detail(out, "prior_reference", prior.as_str());
    append_detail(out, "prior_transaction_hash", optional_str(&t.prior_transaction_hash));
    append_detail(out, "transaction_hash", optional_str(&t.transaction_hash));
    assert(out@ =~= start + transaction_text(t@));
}

fn append_event_head(out: &mut String, e: &EventRecord)
    ensures
        final(out)@ == old(out)@ + event_head(*e),
{
    let ghost start = out@;
    out.append("  event ");
    append_decimal(out, e.append_sequence.value());
    out.append(" ");
    out.append(e.id.as_str());
    out.append(" ");
    out.append(e.event_type.name.as_str());
    out.append("@");
    append_decimal(out, e.event_type.version as u64);
    out.append(" occurred_at=");
    out.append(e.occurred_at.as_str());
    out.append(" recorded_at=");
    out.append(e.recorded_at.as_str());
    out.append(" source=");
    out.append(e.source.as_str());
    out.append("\n");
    assert(out@ =~= start + event_head(*e));
}

fn append_event<N: NumberText>(out: &mut String, e: &EventRecord, numbers: &N) -> (texts: Ghost<Seq<Seq<char>>>)
    ensures
        texts@.len() == e.payload.keys().len(),
        number_texts_ok(numbers, value_views(e.payload), texts@),
        final(out)@ == old(out)@ + event_text(*e, texts@),
{
    let ghost start = out@;
    append_event_head(out, e);
    let ghost head = out@;
    let ghost names = e.payload.keys();
    let ghost values = value_views(e.payload);
    let ghost mut texts: Seq<Seq<char>> = Seq::empty();
    proof {
        e.payload.lemma_shape();
        assert(names.take(0) =~= Seq::<Seq<char>>::empty());
    }
    let n = e.payload.len();
    let mut i: usize = 0;
    while i < n
        invariant
            n == names.len(),
            names == e.payload.keys(),
            values == value_views(e.payload),
            e.payload.keys().len() == e.payload.values().len(),
            i <= n,
            texts.len() == i,
            forall|k: int| 0 <= k < i ==> #[trigger] number_text_ok(numbers, values[k], texts[k]),
            out@ == head + property_lines("    "@, names.take(i as int), values.take(i as int), texts),
        decreases n - i,
    {
        out.append("    ");
        out.append(e.payload.key_at(i).as_str());
        out.append(": ");
        let number = append_value(out, e.payload.value_at(i), numbers);
        out.append("\n");
        proof {
            assert(names.take(i + 1).drop_last() =~= names.take(i as int));
            assert(values.take(i + 1).drop_last() =~= values.take(i as int));
            assert(texts.push(number@).drop_last() =~= texts);
            texts = texts.push(number@);
        }
        i = i + 1;
    }
    proof {
        assert(names.take(n as int) =~= names);
        assert(values.take(n as int) =~= values);
    }
    assert(out@ =~= start + event_text(*e, texts));
    Ghost(texts)
}

fn append_events<N: NumberText>(out: &mut String, events: &[EventRecord], numbers: &N) -> (r: (
    Ghost<Seq<EventRecord>>,
    Ghost<Seq<Seq<Seq<char>>>>,
))
    ensures
        is_stable_sort(events@, r.0@, event_append_order()),
        r.1@.len() == r.0@.len(),
        forall|i: int| 0 <= i < r.1@.len() ==> #[trigger] r.1@[i].len() == r.0@[i].payload.keys().len(),
        forall|i: int| 0 <= i < r.1@.len() ==> #[trigger] number_texts_ok(numbers, value_views(r.0@[i].payload), r.1@[i]),
        final(out)@ == old(out)@ + events_section(r.0@, r.1@),
{
    let ghost start = out@;
    let n = events.len();
    let mut keys: Vec<u64> = Vec::new();
    let mut i: usize = 0;
    while i < n
        invariant
            n == events@.len(),
            i <= n,
            keys@.len() == i,
            forall|k: int| 0 <= k < i ==> #[trigger] keys@[k] == events@[k].append_sequence@,
        decreases n - i,
    {
        keys.push(events[i].append_sequence.value());
        i = i + 1;
    }
    let order = stable_positions_by_key(&keys);
    let ghost ordered = order@.map_values(|p: usize| events@[p as int]);
    proof {
        lemma_stable_sort_by_positions(events@, keys@, order@, event_append_order());
    }
    out.append("Events (");
    append_decimal(out, n as u64);
    out.append("; bounded Event range read, app-layer filter):\n");
    let ghost before = out@;
    let ghost mut texts: Seq<Seq<Seq<char>>> = Seq::empty();
    if n == 0 {
        out.append("  none\n");
    } else {
        let mut k: usize = 0;
        proof {
            assert(ordered.take(0) =~= Seq::<EventRecord>::empty());
        }
        while k < n
            invariant
                n == events@.len(),
                order@.len() == n,
                forall|j: int| 0 <= j < order@.len() ==> #[trigger] order@[j] < n,
                ordered == order@.map_values(|p: usize| events@[p as int]),
                k <= n,
                texts.len() == k,
                forall|j: int| 0 <= j < k ==> #[trigger] texts[j].len() == ordered[j].payload.keys().len(),
                forall|j: int| 0 <= j < k ==> #[trigger] number_texts_ok(numbers, value_views(ordered[j].payload), texts[j]),
                out@ == before + event_lines(ordered.take(k as int), texts),
            decreases n - k,
        {
            let p = order[k];
            let e = &events[p];
            assert(*e == ordered[k as int]);
            let t = append_event(out, e, numbers);
            proof {
                assert(ordered.take(k + 1).drop_last() =~= ordered.take(k as int));
                assert(texts.push(t@).drop_last() =~= texts);
                texts = texts.push(t@);
            }
            k = k + 1;
        }
        proof {
            assert(ordered.take(n as int) =~= ordered);
        }
    }
    assert(out@ =~= start + events_section(ordered, texts));
    (Ghost(ordered), Ghost(texts))
}

fn append_transactions(out: &mut String, transactions: &[TimelineTransaction]) -> (r: Ghost<Seq<TimelineTransactionView>>)
    ensures
        is_stable_sort(transaction_views(transactions@), r@, transaction_append_order()),
        final(out)@ == old(out)@ + transactions_section(r@),
{
    let ghost start = out@;
    let ghost views = transaction_views(transactions@);
    let n = transactions.len();
    let mut keys: Vec<u64> = Vec::new();
    let mut i: usize = 0;
    while i < n
        invariant
            n == transactions@.len(),
            i <= n,
            keys@.len() == i,
            forall|k: int| 0 <= k < i ==> #[trigger] keys@[k] == transactions@[k].append_index,
        decreases n - i,
    {
        keys.push(transactions[i].append_index);
        i = i + 1;
    }
    let order = stable_positions_by_key(&keys);
    let ghost ordered = order@.map_values(|p: usize| views[p as int]);
    proof {
        lemma_stable_sort_by_positions(views, keys@, order@, transaction_append_order());
    }
    out.append("Transactions (");
    append_decimal(out, n as u64);
    out.append("; bounded Transaction range read, app-layer filter):\n");
    let ghost before = out@;
    if n == 0 {
        out.append("  none\n");
    } else {
        let mut k: usize = 0;
        proof {
            assert(ordered.take(0) =~= Seq::<TimelineTransactionView>::empty());
        }
        while k < n
            invariant
                n == transactions@.len(),
                views == transaction_views(transactions@),
                order@.len() == n,
                forall|j: int| 0 <= j < order@.len() ==> #[trigger] order@[j] < n,
                ordered == order@.map_values(|p: usize| views[p as int]),
                k <= n,
                out@ == before + transaction_lines(ordered.take(k as int)),
            decreases n - k,
        {
            let p = order[k];
            let t = &transactions[p];
            assert(t@ == ordered[k as int]);
            append_transaction(out, t);
            proof {
                assert(ordered.take(k + 1).drop_last() =~= ordered.take(k as int));
            }
            k = k + 1;
        }
        proof {
            assert(ordered.take(n as int) =~= ordered);
        }
    }
    assert(out@ =~= start + transactions_section(ordered));
    Ghost(ordered)
}

/// Renders the timeline of an asset: the given Events ordered by append
/// sequence and the given Transactions ordered by append index, each order
/// keeping the given order of equal keys; `numbers` renders numeric payload
/// values.
pub fn render_timeline<N: NumberText>(
    asset_id: &ObjectId,
    events: &[EventRecord],
    transactions: &[TimelineTransaction],
    numbers: &N,
) -> (r: String)
    ensures
        exists|
            ordered_events: Seq<EventRecord>,
            texts: Seq<Seq<Seq<char>>>,
            ordered_transactions: Seq<TimelineTransactionView>,
        |
            #![trigger timeline_text(asset_id@, ordered_events, texts, ordered_transactions)]
            {
                &&& is_stable_sort(events@, ordered_events, event_append_order())
                &&& is_stable_sort(transaction_views(transactions@), ordered_transactions, transaction_append_order())
                &&& texts.len() == ordered_events.len()
                &&& forall|i: int| 0 <= i < texts.len() ==> #[trigger] texts[i].len() == ordered_events[i].payload.keys().len()
                &&& forall|i: int| 0 <= i < texts.len() ==> #[trigger] number_texts_ok(numbers, value_views(ordered_events[i].payload), texts[i])
                &&& r@ == timeline_text(asset_id@, ordered_events, texts, ordered_transactions)
            },
{
    let mut out = String::from_str("Timeline ");
    out.append(asset_id.as_str());
    out.append("\n");
    let (ordered_events, texts) = append_events(&mut out, events, numbers);
    let ordered_transactions = append_transactions(&mut out, transactions);
    assert(out@ =~= timeline_text(asset_id@, ordered_events@, texts@, ordered_transactions@));
    out
}

} // verus!
