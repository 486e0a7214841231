//! What the accumulators give for a run of inputs.

use crate::datatypes::arrow_types::ArrowType;
use crate::datatypes::scalar::Datum;
use crate::physical_plan::expressions::aggregate_expression::{
    accumulated_all, AccumulatorState, COUNT_LIMIT,
};
use crate::physical_plan::expressions::binary_expression::datum_less;
use crate::text::{bytes_less, bytes_of, lemma_bytes_determine_text, lemma_bytes_less_transitive};
use vstd::prelude::*;

verus! {

/// The number of inputs of a run that are no nulls.
pub open spec fn non_nulls(inputs: Seq<Option<Datum>>) -> nat
    decreases inputs.len(),
{
    if inputs.len() == 0 {
        0
    } else {
        non_nulls(inputs.drop_last()) + (if inputs.last() is Some {
            1nat
        } else {
            0nat
        })
    }
}

/// The sum of the numbers of a run; a null, and a value that is no number,
/// adds nothing.
pub open spec fn sum_of(inputs: Seq<Option<Datum>>) -> int
    decreases inputs.len(),
{
    if inputs.len() == 0 {
        0
    } else {
        sum_of(inputs.drop_last()) + (match inputs.last() {
            Some(Datum::Integer(_, v)) => v,
            _ => 0,
        })
    }
}

/// A count counts the inputs that are no nulls.
pub proof fn theorem_count_counts_non_nulls(inputs: Seq<Option<Datum>>)
    ensures
        accumulated_all(AccumulatorState::Count(0), inputs) matches Ok(s) ==> s
            == AccumulatorState::Count(non_nulls(inputs)),
        accumulated_all(AccumulatorState::Count(0), inputs) is Ok <==> non_nulls(inputs)
            <= COUNT_LIMIT,
    decreases inputs.len(),
{
    if inputs.len() > 0 {
        theorem_count_counts_non_nulls(inputs.drop_last());
    }
}

/// A sum is the sum of the inputs that are no nulls, and is absent where
/// there are none: for a run of numbers of the type of the sum on which
/// the accumulator does not fail.
pub proof fn theorem_sum_adds_non_nulls(t: ArrowType, inputs: Seq<Option<Datum>>)
    ensures
        accumulated_all(AccumulatorState::Sum(t, None), inputs) matches Ok(s) ==> s == (
        if non_nulls(inputs) == 0 {
            AccumulatorState::Sum(t, None)
        } else {
            AccumulatorState::Sum(t, Some(Datum::Integer(t, sum_of(inputs))))
        }),
    decreases inputs.len(),
{
    if inputs.len() > 0 {
        theorem_sum_adds_non_nulls(t, inputs.drop_last());
        lemma_sum_of_nulls(inputs.drop_last());
    }
}

/// A run without values holds nulls only.
pub proof fn lemma_no_non_nulls(inputs: Seq<Option<Datum>>)
    requires
        non_nulls(inputs) == 0,
    ensures
        forall|i: int| 0 <= i < inputs.len() ==> (#[trigger] inputs[i]) is None,
    decreases inputs.len(),
{
    if inputs.len() > 0 {
        lemma_no_non_nulls(inputs.drop_last());
        assert forall|i: int| 0 <= i < inputs.len() implies (#[trigger] inputs[i]) is None by {
            if i < inputs.len() - 1 {
                assert(inputs.drop_last()[i] == inputs[i]);
            }
        }
    }
}

/// A run of nulls adds up to nothing.
pub proof fn lemma_sum_of_nulls(inputs: Seq<Option<Datum>>)
    ensures
        non_nulls(inputs) == 0 ==> sum_of(inputs) == 0,
    decreases inputs.len(),
{
    if inputs.len() > 0 {
        lemma_sum_of_nulls(inputs.drop_last());
    }
}

/// A count of different values holds every value that came, once.
pub proof fn theorem_count_distinct_holds_each_value_once(inputs: Seq<Option<Datum>>)
    ensures
        accumulated_all(AccumulatorState::CountDistinct(Seq::empty()), inputs) matches Ok(
            AccumulatorState::CountDistinct(seen),
        ) ==> seen.no_duplicates() && forall|d: Datum|
            seen.contains(d) <==> inputs.contains(Some(d)),
        accumulated_all(AccumulatorState::CountDistinct(Seq::empty()), inputs) matches Ok(s)
            ==> s is CountDistinct,
    decreases inputs.len(),
{
    let start = AccumulatorState::CountDistinct(Seq::empty());
    if inputs.len() == 0 {
        let seen = Seq::<Datum>::empty();
    } else {
        let before = inputs.drop_last();
        theorem_count_distinct_holds_each_value_once(before);
        if accumulated_all(start, inputs) is Ok {
            let old_seen = accumulated_all(start, before)->Ok_0->CountDistinct_0;
            let seen = accumulated_all(start, inputs)->Ok_0->CountDistinct_0;
            let last = inputs.last();
            assert forall|d: Datum| seen.contains(d) <==> inputs.contains(Some(d)) by {
                if inputs.contains(Some(d)) {
                    let i = choose|i: int| 0 <= i < inputs.len() && inputs[i] == Some(d);
                    if i < before.len() {
                        assert(before[i] == Some(d));
                        assert(old_seen.contains(d));
                        let k = choose|k: int| 0 <= k < old_seen.len() && old_seen[k] == d;
                        assert(seen[k] == d);
                    } else {
                        if !old_seen.contains(d) {
                            assert(seen[old_seen.len() as int] == d);
                        } else {
                            let k = choose|k: int| 0 <= k < old_seen.len() && old_seen[k] == d;
                        }
                    }
                }
                if seen.contains(d) {
                    let k = choose|k: int| 0 <= k < seen.len() && seen[k] == d;
                    if k < old_seen.len() {
                        assert(old_seen.contains(d));
                        let i = choose|i: int| 0 <= i < before.len() && before[i] == Some(d);
                    }
                }
            }
        }
    }
}

/// Of two different byte sequences one comes before the other.
proof fn lemma_bytes_order_is_total(a: Seq<u8>, b: Seq<u8>)
    requires
        a != b,
    ensures
        bytes_less(a, b) || bytes_less(b, a),
    decreases a.len(),
{
    if a.len() == 0 {
        assert(b.len() > 0) by {
            if b.len() == 0 {
                assert(a =~= b);
            }
        }
        assert(0 <= 0 <= a.len() && 0 <= b.len() && a.subrange(0, 0) == b.subrange(0, 0) && (if 0
            == a.len() {
            0 < b.len()
        } else {
            0 < b.len() && a[0] < b[0]
        }));
    } else if b.len() == 0 {
        assert(0 <= 0 <= b.len() && 0 <= a.len() && b.subrange(0, 0) == a.subrange(0, 0) && (if 0
            == b.len() {
            0 < a.len()
        } else {
            0 < a.len() && b[0] < a[0]
        }));
    } else if a[0] != b[0] {
        if a[0] < b[0] {
            assert(0 <= 0 <= a.len() && 0 <= b.len() && a.subrange(0, 0) == b.subrange(0, 0) && (
            if 0 == a.len() {
                0 < b.len()
            } else {
                0 < b.len() && a[0] < b[0]
            }));
        }
    } else {
        let x = a.drop_first();
        let y = b.drop_first();
        assert(x != y) by {
            if x == y {
                assert(a =~= seq![a[0]] + x);
                assert(b =~= seq![b[0]] + y);
            }
        }
        lemma_bytes_order_is_total(x, y);
        if bytes_less(x, y) {
            lemma_bytes_less_after_equal_head(a, b);
        } else {
            lemma_bytes_less_after_equal_head(b, a);
        }
    }
}

/// Where two sequences begin with the same byte and the rest of the first
/// comes before the rest of the second, the first comes before the second.
proof fn lemma_bytes_less_after_equal_head(a: Seq<u8>, b: Seq<u8>)
    requires
        a.len() > 0,
        b.len() > 0,
        a[0] == b[0],
        bytes_less(a.drop_first(), b.drop_first()),
    ensures
        bytes_less(a, b),
{
    let x = a.drop_first();
    let y = b.drop_first();
    let k = choose|k: int|
        0 <= k <= x.len() && k <= y.len() && x.subrange(0, k) == y.subrange(0, k) && (if k
            == x.len() {
            k < y.len()
        } else {
            k < y.len() && x[k] < y[k]
        });
    assert(a.subrange(0, k + 1) =~= b.subrange(0, k + 1)) by {
        assert forall|i: int| 0 <= i < k + 1 implies a[i] == b[i] by {
            if i > 0 {
                assert(x.subrange(0, k)[i - 1] == y.subrange(0, k)[i - 1]);
            }
        }
    }
}

/// The order of the values of one type is total: of two different values
/// one comes before the other.
pub proof fn theorem_order_is_total(a: Datum, b: Datum)
    requires
        a.wf(),
        b.wf(),
        a.data_type() == b.data_type(),
        a != b,
    ensures
        datum_less(a, b) || datum_less(b, a),
{
    match a {
        Datum::Text(x) => {
            let y = b->Text_0;
            if bytes_of(x) == bytes_of(y) {
                lemma_bytes_determine_text(x, y);
            } else {
                lemma_bytes_order_is_total(bytes_of(x), bytes_of(y));
            }
        },
        _ => {},
    }
}

/// The order of the values is transitive.
pub proof fn theorem_order_is_transitive(a: Datum, b: Datum, c: Datum)
    requires
        datum_less(a, b),
        datum_less(b, c),
    ensures
        datum_less(a, c),
{
    match (a, b, c) {
        (Datum::Text(x), Datum::Text(y), Datum::Text(z)) => {
            lemma_bytes_less_transitive(bytes_of(x), bytes_of(y), bytes_of(z));
        },
        _ => {},
    }
}

/// No value comes before itself.
pub proof fn theorem_order_is_irreflexive(a: Datum)
    ensures
        !datum_less(a, a),
{
}

/// The greatest is an input, and no input comes after it; it is absent
/// where every input is a null: for a run on which the accumulator does
/// not fail.
pub proof fn theorem_max_is_the_greatest(t: ArrowType, inputs: Seq<Option<Datum>>)
    ensures
        accumulated_all(AccumulatorState::Max(t, None), inputs) matches Ok(s) ==> s is Max
            && s->Max_0 == t && (s->Max_1 is None <==> non_nulls(inputs) == 0) && (
        s->Max_1 matches Some(best) ==> inputs.contains(Some(best)) && forall|i: int|
            0 <= i < inputs.len() ==> ((#[trigger] inputs[i]) matches Some(d) ==> !datum_less(
                best,
                d,
            ))),
    decreases inputs.len(),
{
    let start = AccumulatorState::Max(t, None);
    if inputs.len() > 0 {
        let before = inputs.drop_last();
        theorem_max_is_the_greatest(t, before);
        if accumulated_all(start, inputs) is Ok {
            let old_best = accumulated_all(start, before)->Ok_0->Max_1;
            let s = accumulated_all(start, inputs)->Ok_0;
            let last = inputs.last();
            if old_best is None {
                lemma_no_non_nulls(before);
            }
            if s->Max_1 is Some {
                let best = s->Max_1->Some_0;
                if old_best is Some && best == old_best->Some_0 {
                    let i = choose|i: int| 0 <= i < before.len() && before[i] == Some(best);
                }
                assert forall|i: int| 0 <= i < inputs.len() implies ((#[trigger] inputs[i]) matches Some(
                    d,
                ) ==> !datum_less(best, d)) by {
                    if inputs[i] is Some {
                        let d = inputs[i]->Some_0;
                        if i < before.len() {
                            assert(before[i] == inputs[i]);
                            if old_best is Some && best != old_best->Some_0 {
                                if datum_less(best, d) {
                                    theorem_order_is_transitive(old_best->Some_0, best, d);
                                }
                            }
                        }
                    }
                }
            }
        }
    }
}

/// The least is an input, and no input comes before it; it is absent where
/// every input is a null: for a run on which the accumulator does not
/// fail.
pub proof fn theorem_min_is_the_least(t: ArrowType, inputs: Seq<Option<Datum>>)
    ensures
        accumulated_all(AccumulatorState::Min(t, None), inputs) matches Ok(s) ==> s is Min
            && s->Min_0 == t && (s->Min_1 is None <==> non_nulls(inputs) == 0) && (
        s->Min_1 matches Some(best) ==> inputs.contains(Some(best)) && forall|i: int|
            0 <= i < inputs.len() ==> ((#[trigger] inputs[i]) matches Some(d) ==> !datum_less(
                d,
                best,
            ))),
    decreases inputs.len(),
{
    let start = AccumulatorState::Min(t, None);
    if inputs.len() > 0 {
        let before = inputs.drop_last();
        theorem_min_is_the_least(t, before);
        if accumulated_all(start, inputs) is Ok {
            let old_best = accumulated_all(start, before)->Ok_0->Min_1;
            let s = accumulated_all(start, inputs)->Ok_0;
            let last = inputs.last();
            if old_best is None {
                lemma_no_non_nulls(before);
            }
            if s->Min_1 is Some {
                let best = s->Min_1->Some_0;
                if old_best is Some && best == old_best->Some_0 {
                    let i = choose|i: int| 0 <= i < before.len() && before[i] == Some(best);
                }
                assert forall|i: int| 0 <= i < inputs.len() implies ((#[trigger] inputs[i]) matches Some(
                    d,
                ) ==> !datum_less(d, best)) by {
                    if inputs[i] is Some {
                        let d = inputs[i]->Some_0;
                        if i < before.len() {
                            assert(before[i] == inputs[i]);
                            if old_best is Some && best != old_best->Some_0 {
                                if datum_less(d, best) {
                                    theorem_order_is_transitive(d, best, old_best->Some_0);
                                }
                            }
                        }
                    }
                }
            }
        }
    }
}

} // verus!
