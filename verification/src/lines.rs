//! The resilient line-oriented parser shared by the follow-up scanners.
//!
//! A follow-up tool writes one self-contained record per line. The output
//! bytes are split into lines here; each scanner decodes its own lines, one
//! at a time, and a line that fails to decode is counted and discarded while
//! decoding goes on with the rest. [`somes_of`] is the shape of that
//! discipline: the records kept are exactly the decodes that succeeded, in
//! order, and [`lemma_corrupt_line_isolated`] shows that one corrupt line
//! never costs more than its own record.

use vstd::prelude::*;

verus! {

/// A carriage return at the end of a completed line is dropped, as the
/// line-reading conventions of the platform do.
pub open spec fn strip_cr(line: Seq<u8>) -> Seq<u8> {
    if line.len() > 0 && line.last() == 13u8 {
        line.drop_last()
    } else {
        line
    }
}

/// The lines of `bytes` still to come, with `cur` the partial line read so
/// far: split at every newline byte, strip a carriage return from each
/// completed line, and yield a last partial line, unstripped, only if it is
/// non-empty.
pub open spec fn lines_from(bytes: Seq<u8>, cur: Seq<u8>) -> Seq<Seq<u8>>
    decreases bytes.len(),
{
    if bytes.len() == 0 {
        if cur.len() == 0 {
            Seq::<Seq<u8>>::empty()
        } else {
            seq![cur]
        }
    } else if bytes.first() == 10u8 {
        seq![strip_cr(cur)] + lines_from(bytes.drop_first(), Seq::<u8>::empty())
    } else {
        lines_from(bytes.drop_first(), cur.push(bytes.first()))
    }
}

/// The lines of an output file's bytes.
pub open spec fn lines_of(bytes: Seq<u8>) -> Seq<Seq<u8>> {
    lines_from(bytes, Seq::<u8>::empty())
}

/// How many of the lines are non-empty: only those are expected to decode.
pub open spec fn count_nonempty(ls: Seq<Seq<u8>>) -> nat
    decreases ls.len(),
{
    if ls.len() == 0 {
        0
    } else {
        count_nonempty(ls.drop_last()) + if ls.last().len() > 0 {
            1nat
        } else {
            0nat
        }
    }
}

/// Splits output bytes into lines, exactly as [`lines_of`] says.
pub fn split_lines(bytes: &Vec<u8>) -> (lines: Vec<Vec<u8>>)
    ensures
        lines.deep_view() == lines_of(bytes@),
{
    let mut out: Vec<Vec<u8>> = Vec::new();
    let mut cur: Vec<u8> = Vec::new();
    let mut i: usize = 0;
    assert(bytes@.skip(0) =~= bytes@);
    assert(out.deep_view() + lines_from(bytes@, Seq::<u8>::empty()) =~= lines_from(
        bytes@,
        Seq::<u8>::empty(),
    ));
    while i < bytes.len()
        invariant
            i <= bytes.len(),
            lines_of(bytes@) == out.deep_view() + lines_from(bytes@.skip(i as int), cur@),
        decreases bytes.len() - i,
    {
        assert(bytes@.skip(i as int).drop_first() =~= bytes@.skip(i + 1));
        assert(bytes@.skip(i as int).first() == bytes@[i as int]);
        let ghost out0 = out.deep_view();
        let ghost cur0 = cur@;
        let b = bytes[i];
        if b == 10 {
            let mut line = cur;
            cur = Vec::new();
            let ghost l0 = line@;
            if line.len() > 0 && line[line.len() - 1] == 13 {
                line.pop();
            }
            assert(line@ =~= strip_cr(l0));
            out.push(line);
            proof {
                assert(lines_from(bytes@.skip(i as int), cur0) == seq![strip_cr(cur0)]
                    + lines_from(bytes@.skip(i + 1), Seq::<u8>::empty()));
                assert(out.deep_view() =~~= out0.push(strip_cr(cur0)));
                assert(out0.push(strip_cr(cur0)) =~= out0 + seq![strip_cr(cur0)]);
                assert((out0 + seq![strip_cr(cur0)]) + lines_from(
                    bytes@.skip(i + 1),
                    Seq::<u8>::empty(),
                ) =~= out0 + (seq![strip_cr(cur0)] + lines_from(
                    bytes@.skip(i + 1),
                    Seq::<u8>::empty(),
                )));
            }
        } else {
            cur.push(b);
        }
        i += 1;
    }
    assert(bytes@.skip(bytes@.len() as int) =~= Seq::<u8>::empty());
    let ghost out0 = out.deep_view();
    let ghost cur0 = cur@;
    if cur.len() > 0 {
        out.push(cur);
        proof {
            assert(out.deep_view() =~~= out0.push(cur0));
            assert(out0.push(cur0) =~= out0 + seq![cur0]);
        }
    } else {
        assert(out.deep_view() + Seq::<Seq<u8>>::empty() =~= out.deep_view());
    }
    out
}

/// The records kept by the skip discipline: the successful decodes, in
/// order; failures contribute nothing.
pub open spec fn somes_of<T>(d: Seq<Option<T>>) -> Seq<T>
    decreases d.len(),
{
    if d.len() == 0 {
        Seq::<T>::empty()
    } else {
        somes_of(d.drop_last()) + match d.last() {
            Option::Some(x) => seq![x],
            Option::None => Seq::<T>::empty(),
        }
    }
}

/// How many decodes failed: one diagnostic each.
pub open spec fn count_nones<T>(d: Seq<Option<T>>) -> nat
    decreases d.len(),
{
    if d.len() == 0 {
        0
    } else {
        count_nones(d.drop_last()) + if d.last() is None {
            1nat
        } else {
            0nat
        }
    }
}

/// The skip discipline treats every line on its own: the records of a
/// concatenation are the records of the parts, in order.
pub proof fn lemma_somes_of_concat<T>(a: Seq<Option<T>>, b: Seq<Option<T>>)
    ensures
        somes_of(a + b) == somes_of(a) + somes_of(b),
    decreases b.len(),
{
    if b.len() == 0 {
        assert(a + b =~= a);
        assert(somes_of(a) + somes_of(b) =~= somes_of(a));
    } else {
        lemma_somes_of_concat(a, b.drop_last());
        assert((a + b).drop_last() =~= a + b.drop_last());
        assert((a + b).last() == b.last());
        match b.last() {
            Option::Some(x) => {
                assert(somes_of(a) + somes_of(b.drop_last()) + seq![x] =~= somes_of(a) + (
                somes_of(b.drop_last()) + seq![x]));
            },
            Option::None => {
                assert(somes_of(a) + somes_of(b.drop_last()) + Seq::<T>::empty() =~= somes_of(a)
                    + (somes_of(b.drop_last()) + Seq::<T>::empty()));
            },
        }
    }
}

/// One corrupt line is isolated: if decode `i` fails instead of succeeding,
/// every record from the lines before and after it is kept unchanged, so the
/// valid-record count drops by at most that one line's worth.
pub proof fn lemma_corrupt_line_isolated<T>(d: Seq<Option<T>>, i: int)
    requires
        0 <= i < d.len(),
    ensures
        somes_of(d.update(i, Option::<T>::None)) == somes_of(d.take(i)) + somes_of(
            d.skip(i + 1),
        ),
        somes_of(d) == somes_of(d.take(i)) + somes_of(seq![d[i]]) + somes_of(d.skip(i + 1)),
        somes_of(d).len() <= somes_of(d.update(i, Option::<T>::None)).len() + 1,
{
    let left = d.take(i);
    let mid = seq![d[i]];
    let right = d.skip(i + 1);
    assert(d =~= left + mid + right);
    lemma_somes_of_concat(left, mid);
    lemma_somes_of_concat(left + mid, right);
    let corrupt = d.update(i, Option::<T>::None);
    assert(corrupt =~= left + seq![Option::<T>::None] + right);
    lemma_somes_of_concat(left, seq![Option::<T>::None]);
    lemma_somes_of_concat(left + seq![Option::<T>::None], right);
    assert(seq![Option::<T>::None].drop_last() =~= Seq::<Option<T>>::empty());
    assert(somes_of(Seq::<Option<T>>::empty()) =~= Seq::<T>::empty());
    assert(somes_of(seq![Option::<T>::None]) =~= Seq::<T>::empty());
    assert(somes_of(left + seq![Option::<T>::None]) =~= somes_of(left));
    assert(seq![d[i]].drop_last() =~= Seq::<Option<T>>::empty());
    assert(somes_of(mid).len() <= 1);
}

} // verus!
