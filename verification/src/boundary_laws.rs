//! The canonical encoding of a consistency boundary is unambiguous: equal
//! encodings come only from equal boundaries.
use vstd::prelude::*;
use crate::contracts::{
    canonical_encoding, reason_token, slot_line, ConsistencyBoundaryUnavailableReason, ConsistencyBoundaryView,
    SlotView,
};
use crate::query_canonical_laws::{lemma_decimal_digits, lemma_decimal_injective};
use crate::text::{byte_len, decimal, length_prefixed, utf8_len};

verus! {

/// Equal sequences with an equal prefix have equal rests.
proof fn lemma_strip(p: Seq<char>, x: Seq<char>, y: Seq<char>)
    requires
        p + x == p + y,
    ensures
        x == y,
{
    assert(x =~= (p + x).skip(p.len() as int));
    assert(y =~= (p + y).skip(p.len() as int));
}

/// The UTF-8 length of a non-empty string: its first character's encoding,
/// at least one byte, then the rest.
proof fn lemma_utf8_step(s: Seq<char>)
    requires
        s.len() > 0,
    ensures
        utf8_len(s) == vstd::utf8::encode_scalar(s[0] as u32).len() + utf8_len(s.drop_first()),
        vstd::utf8::encode_scalar(s[0] as u32).len() >= 1,
{
}

/// Two splits of one sequence whose first parts have the same UTF-8 length
/// are the same split.
proof fn lemma_same_bytes(s1: Seq<char>, r1: Seq<char>, s2: Seq<char>, r2: Seq<char>)
    requires
        s1 + r1 == s2 + r2,
        utf8_len(s1) == utf8_len(s2),
    ensures
        s1 == s2,
        r1 == r2,
    decreases s1.len(),
{
    if s1.len() == 0 {
        if s2.len() > 0 {
            lemma_utf8_step(s2);
        }
        assert(s1 =~= s2);
        assert(r1 =~= s1 + r1);
        assert(r2 =~= s2 + r2);
    } else {
        if s2.len() == 0 {
            lemma_utf8_step(s1);
            assert(false);
        }
        lemma_utf8_step(s1);
        lemma_utf8_step(s2);
        assert((s1 + r1)[0] == s1[0]);
        assert((s2 + r2)[0] == s2[0]);
        assert(s1.drop_first() + r1 =~= (s1 + r1).drop_first());
        assert(s2.drop_first() + r2 =~= (s2 + r2).drop_first());
        lemma_same_bytes(s1.drop_first(), r1, s2.drop_first(), r2);
        assert(s1[0] == s2[0]);
        assert forall|i: int| 0 <= i < s1.len() implies s1[i] == s2[i] by {
            if i > 0 {
                assert(s1[i] == s1.drop_first()[i - 1]);
                assert(s2[i] == s2.drop_first()[i - 1]);
            }
        }
        assert(s1 =~= s2);
    }
}

/// A decimal number followed by a colon is read back unambiguously.
proof fn lemma_decimal_colon(n: nat, m: nat, x: Seq<char>, y: Seq<char>)
    requires
        decimal(n) + seq![':'] + x == decimal(m) + seq![':'] + y,
    ensures
        n == m,
        x == y,
{
    let a = decimal(n);
    let b = decimal(m);
    lemma_decimal_digits(n);
    lemma_decimal_digits(m);
    let l = a + seq![':'] + x;
    let r = b + seq![':'] + y;
    if a.len() < b.len() {
        assert(l[a.len() as int] == ':');
        assert(r[a.len() as int] == b[a.len() as int]);
        assert(false);
    } else if b.len() < a.len() {
        assert(r[b.len() as int] == ':');
        assert(l[b.len() as int] == a[b.len() as int]);
        assert(false);
    }
    assert(a =~= l.subrange(0, a.len() as int));
    assert(b =~= r.subrange(0, b.len() as int));
    lemma_decimal_injective(n, m);
    lemma_strip(a + seq![':'], x, y);
}

/// A length-prefixed text is read back unambiguously, for texts whose byte
/// length fits the machine word.
proof fn lemma_length_prefixed(a: Seq<char>, b: Seq<char>, x: Seq<char>, y: Seq<char>)
    requires
        length_prefixed(a) + x == length_prefixed(b) + y,
        utf8_len(a) <= usize::MAX,
        utf8_len(b) <= usize::MAX,
    ensures
        a == b,
        x == y,
{
    assert(length_prefixed(a) + x =~= decimal(byte_len(a)) + seq![':'] + (a + x));
    assert(length_prefixed(b) + y =~= decimal(byte_len(b)) + seq![':'] + (b + y));
    lemma_decimal_colon(byte_len(a), byte_len(b), a + x, b + y);
    lemma_same_bytes(a, x, b, y);
}

/// The state part of a slot's line.
spec fn state_text(slot: SlotView) -> Seq<char> {
    match slot {
        SlotView::NotRequested => "not-requested"@,
        SlotView::Unavailable(u) => "unavailable;reason="@ + reason_token(u.reason) + ";detail="@ + length_prefixed(u.detail),
        SlotView::Available(m) => "available;namespace="@ + length_prefixed(m.namespace) + ";marker="@ + length_prefixed(
            m.marker,
        ),
    }
}

/// Every text of a slot has a byte length that fits the machine word.
pub open spec fn slot_sized(slot: SlotView) -> bool {
    match slot {
        SlotView::NotRequested => true,
        SlotView::Unavailable(u) => utf8_len(u.detail) <= usize::MAX,
        SlotView::Available(m) => utf8_len(m.namespace) <= usize::MAX && utf8_len(m.marker) <= usize::MAX,
    }
}

/// Every text of a boundary has a byte length that fits the machine word.
pub open spec fn boundary_sized(b: ConsistencyBoundaryView) -> bool {
    &&& slot_sized(b.object_runtime)
    &&& slot_sized(b.event_engine)
    &&& slot_sized(b.transaction_engine)
    &&& slot_sized(b.computed_value_source)
    &&& slot_sized(b.concept_mapping)
    &&& slot_sized(b.query_definition)
}

/// Distinct reasons have tokens that start with distinct characters.
proof fn lemma_reason_first(r1: ConsistencyBoundaryUnavailableReason, r2: ConsistencyBoundaryUnavailableReason)
    requires
        reason_token(r1).len() > 0 && reason_token(r2).len() > 0 ==> reason_token(r1)[0] == reason_token(r2)[0],
    ensures
        r1 == r2,
        reason_token(r1).len() > 0,
{
    reveal_strlit("component-api-not-available");
    reveal_strlit("transiently-unreachable");
    reveal_strlit("permanently-unsupported");
    reveal_strlit("authorization-restricted");
    reveal_strlit("marker-lost-or-unverifiable");
    reveal_strlit("weaker-consistency-guarantee");
}

/// The first character of two equal sequences.
proof fn lemma_first(a: Seq<char>, x: Seq<char>, b: Seq<char>, y: Seq<char>)
    requires
        a + x == b + y,
        a.len() > 0,
        b.len() > 0,
    ensures
        a[0] == b[0],
{
    assert((a + x)[0] == a[0]);
    assert((b + y)[0] == b[0]);
}

/// A slot's state followed by a line break is read back unambiguously.
proof fn lemma_state(s1: SlotView, s2: SlotView, x: Seq<char>, y: Seq<char>)
    requires
        state_text(s1) + x == state_text(s2) + y,
        slot_sized(s1),
        slot_sized(s2),
    ensures
        s1 == s2,
        x == y,
{
    reveal_strlit("not-requested");
    reveal_strlit("unavailable;reason=");
    reveal_strlit("available;namespace=");
    reveal_strlit(";detail=");
    reveal_strlit(";marker=");
    lemma_first(state_text(s1), x, state_text(s2), y);
    match (s1, s2) {
        (SlotView::NotRequested, SlotView::NotRequested) => {
            lemma_strip("not-requested"@, x, y);
        },
        (SlotView::Unavailable(u1), SlotView::Unavailable(u2)) => {
            let t1 = reason_token(u1.reason);
            let t2 = reason_token(u2.reason);
            let rest1 = ";detail="@ + (length_prefixed(u1.detail) + x);
            let rest2 = ";detail="@ + (length_prefixed(u2.detail) + y);
            assert(state_text(s1) + x =~= "unavailable;reason="@ + (t1 + rest1));
            assert(state_text(s2) + y =~= "unavailable;reason="@ + (t2 + rest2));
            lemma_strip("unavailable;reason="@, t1 + rest1, t2 + rest2);
            lemma_reason_first(u1.reason, u1.reason);
            lemma_reason_first(u2.reason, u2.reason);
            lemma_first(t1, rest1, t2, rest2);
            lemma_reason_first(u1.reason, u2.reason);
            lemma_strip(t1, rest1, rest2);
            lemma_strip(";detail="@, length_prefixed(u1.detail) + x, length_prefixed(u2.detail) + y);
            lemma_length_prefixed(u1.detail, u2.detail, x, y);
        },
        (SlotView::Available(m1), SlotView::Available(m2)) => {
            let rest1 = ";marker="@ + (length_prefixed(m1.marker) + x);
            let rest2 = ";marker="@ + (length_prefixed(m2.marker) + y);
            assert(state_text(s1) + x =~= "available;namespace="@ + (length_prefixed(m1.namespace) + rest1));
            assert(state_text(s2) + y =~= "available;namespace="@ + (length_prefixed(m2.namespace) + rest2));
            lemma_strip("available;namespace="@, length_prefixed(m1.namespace) + rest1, length_prefixed(m2.namespace) + rest2);
            lemma_length_prefixed(m1.namespace, m2.namespace, rest1, rest2);
            lemma_strip(";marker="@, length_prefixed(m1.marker) + x, length_prefixed(m2.marker) + y);
            lemma_length_prefixed(m1.marker, m2.marker, x, y);
        },
        _ => {
            assert(false);
        },
    }
}

/// One slot line of a given component is read back unambiguously.
proof fn lemma_slot(name: Seq<char>, s1: SlotView, s2: SlotView, x: Seq<char>, y: Seq<char>)
    requires
        slot_line(name, s1) + x == slot_line(name, s2) + y,
        slot_sized(s1),
        slot_sized(s2),
    ensures
        s1 == s2,
        x == y,
{
    assert(slot_line(name, s1) + x =~= (name + "="@) + (state_text(s1) + ("\n"@ + x)));
    assert(slot_line(name, s2) + y =~= (name + "="@) + (state_text(s2) + ("\n"@ + y)));
    lemma_strip(name + "="@, state_text(s1) + ("\n"@ + x), state_text(s2) + ("\n"@ + y));
    lemma_state(s1, s2, "\n"@ + x, "\n"@ + y);
    lemma_strip("\n"@, x, y);
}

/// Regrouping a chain of concatenations to the right.
proof fn lemma_regroup(
    h: Seq<char>,
    l1: Seq<char>,
    l2: Seq<char>,
    l3: Seq<char>,
    l4: Seq<char>,
    l5: Seq<char>,
    l6: Seq<char>,
)
    ensures
        h + l1 + l2 + l3 + l4 + l5 + l6 == h + (l1 + (l2 + (l3 + (l4 + (l5 + l6))))),
{
    assert(l5 + l6 == l5 + l6);
    assert(h + l1 + l2 + l3 + l4 + l5 + l6 =~= (h + l1 + l2 + l3 + l4) + (l5 + l6));
    assert((h + l1 + l2 + l3 + l4) + (l5 + l6) =~= (h + l1 + l2 + l3) + (l4 + (l5 + l6)));
    assert((h + l1 + l2 + l3) + (l4 + (l5 + l6)) =~= (h + l1 + l2) + (l3 + (l4 + (l5 + l6))));
    assert((h + l1 + l2) + (l3 + (l4 + (l5 + l6))) =~= (h + l1) + (l2 + (l3 + (l4 + (l5 + l6)))));
    assert((h + l1) + (l2 + (l3 + (l4 + (l5 + l6)))) =~= h + (l1 + (l2 + (l3 + (l4 + (l5 + l6))))));
}

/// Equal canonical encodings come only from equal boundaries (whose texts
/// have byte lengths that fit the machine word).
pub proof fn law_boundary_encoding_is_unambiguous(b1: ConsistencyBoundaryView, b2: ConsistencyBoundaryView)
    requires
        canonical_encoding(b1) == canonical_encoding(b2),
        boundary_sized(b1),
        boundary_sized(b2),
    ensures
        b1 == b2,
{
    let h = "open-eqms.consistency-boundary.v1\n"@;
    let a1 = slot_line("object-runtime"@, b1.object_runtime);
    let a2 = slot_line("event-engine"@, b1.event_engine);
    let a3 = slot_line("transaction-engine"@, b1.transaction_engine);
    let a4 = slot_line("computed-value-source"@, b1.computed_value_source);
    let a5 = slot_line("concept-mapping"@, b1.concept_mapping);
    let a6 = slot_line("query-definition"@, b1.query_definition);
    let c1 = slot_line("object-runtime"@, b2.object_runtime);
    let c2 = slot_line("event-engine"@, b2.event_engine);
    let c3 = slot_line("transaction-engine"@, b2.transaction_engine);
    let c4 = slot_line("computed-value-source"@, b2.computed_value_source);
    let c5 = slot_line("concept-mapping"@, b2.concept_mapping);
    let c6 = slot_line("query-definition"@, b2.query_definition);
    let e = Seq::<char>::empty();
    lemma_regroup(h, a1, a2, a3, a4, a5, a6);
    lemma_regroup(h, c1, c2, c3, c4, c5, c6);
    lemma_strip(h, a1 + (a2 + (a3 + (a4 + (a5 + a6)))), c1 + (c2 + (c3 + (c4 + (c5 + c6)))));
    lemma_slot("object-runtime"@, b1.object_runtime, b2.object_runtime, a2 + (a3 + (a4 + (a5 + a6))), c2 + (c3 + (c4 + (c5 + c6))));
    lemma_slot("event-engine"@, b1.event_engine, b2.event_engine, a3 + (a4 + (a5 + a6)), c3 + (c4 + (c5 + c6)));
    lemma_slot("transaction-engine"@, b1.transaction_engine, b2.transaction_engine, a4 + (a5 + a6), c4 + (c5 + c6));
    lemma_slot("computed-value-source"@, b1.computed_value_source, b2.computed_value_source, a5 + a6, c5 + c6);
    assert(a6 =~= a6 + e);
    assert(c6 =~= c6 + e);
    lemma_slot("concept-mapping"@, b1.concept_mapping, b2.concept_mapping, a6 + e, c6 + e);
    lemma_slot("query-definition"@, b1.query_definition, b2.query_definition, e, e);
}

} // verus!
