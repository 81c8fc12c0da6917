use vstd::prelude::*;

use crate::cache::{lemma_upsert_lookup_other, lemma_upsert_lookup_same, spec_lookup, EntryView};
use crate::parse::{envelope_ok, model_at, record_at, record_ok, spec_key, supported_model};
use crate::session::{spec_apply_line, spec_apply_lines};

verus! {

/// A fully-decoding line of the supported model leaves the cache holding,
/// under the canonical id built from lowercase(model), the eight-digit
/// zero-padded device id and lowercase(channel), exactly the record the
/// line decodes to — and every other id keeps the record it had.
pub proof fn lemma_supported_line_updates_cache(c: Seq<EntryView>, b: Seq<u8>)
    requires
        model_at(b) == supported_model(),
        record_ok(b),
    ensures
        spec_lookup(
            spec_apply_line(c, b),
            spec_key(record_at(b).model, record_at(b).id, record_at(b).channel),
        ) == Some(record_at(b)),
        forall|other: Seq<char>|
            other != spec_key(record_at(b).model, record_at(b).id, record_at(b).channel)
                ==> spec_lookup(spec_apply_line(c, b), other) == spec_lookup(c, other),
{
    let key = spec_key(record_at(b).model, record_at(b).id, record_at(b).channel);
    lemma_upsert_lookup_same(c, key, record_at(b));
    assert forall|other: Seq<char>| other != key implies spec_lookup(spec_apply_line(c, b), other)
        == spec_lookup(c, other) by {
        lemma_upsert_lookup_other(c, key, record_at(b), other);
    }
}

/// A line whose envelope decodes but whose model is not the supported one
/// changes nothing in the cache.
pub proof fn lemma_unknown_model_no_change(c: Seq<EntryView>, b: Seq<u8>)
    requires
        envelope_ok(b),
        model_at(b) != supported_model(),
    ensures
        spec_apply_line(c, b) == c,
{
}

/// A line that fails decoding — no envelope, or a schema mismatch for the
/// supported model — changes nothing in the cache.
pub proof fn lemma_malformed_no_change(c: Seq<EntryView>, b: Seq<u8>)
    requires
        !envelope_ok(b) || !record_ok(b),
    ensures
        spec_apply_line(c, b) == c,
{
}

/// A failed line is fully recovered: feeding a bad line and then any other
/// line does to the cache exactly what the second line alone does.
pub proof fn lemma_recovery_after_bad_line(c: Seq<EntryView>, bad: Seq<u8>, good: Seq<u8>)
    requires
        !envelope_ok(bad) || !record_ok(bad),
    ensures
        spec_apply_lines(c, seq![bad, good]) == spec_apply_line(c, good),
{
    reveal_with_fuel(spec_apply_lines, 3);
    let ls = seq![bad, good];
    assert(ls[0] == bad);
    assert(ls.drop_first() =~= seq![good]);
    assert(spec_apply_line(c, bad) == c);
    assert(seq![good][0] == good);
    assert(seq![good].drop_first() =~= Seq::<Seq<u8>>::empty());
    assert(spec_apply_lines(c, seq![good]) == spec_apply_lines(
        spec_apply_line(c, good),
        seq![good].drop_first(),
    ));
    assert(spec_apply_lines(spec_apply_line(c, good), Seq::<Seq<u8>>::empty()) == spec_apply_line(
        c,
        good,
    ));
}

} // verus!
