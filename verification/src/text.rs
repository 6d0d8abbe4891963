use vstd::prelude::*;
use vstd::std_specs::iter::IteratorSpec;

verus! {

/// The characters with the Unicode property `White_Space`.
pub open spec fn is_whitespace(c: char) -> bool {
    let n = c as u32;
    ||| 0x09 <= n <= 0x0D
    ||| n == 0x20
    ||| n == 0x85
    ||| n == 0xA0
    ||| n == 0x1680
    ||| 0x2000 <= n <= 0x200A
    ||| n == 0x2028
    ||| n == 0x2029
    ||| n == 0x202F
    ||| n == 0x205F
    ||| n == 0x3000
}

/// The predicate that keeps every character but whitespace.
pub open spec fn significant() -> spec_fn(char) -> bool {
    |c: char| !is_whitespace(c)
}

/// A line with all its whitespace taken out, wherever it stood.
pub open spec fn without_whitespace(s: Seq<char>) -> Seq<char> {
    s.filter(significant())
}

/// Whitespace counts nowhere: a line reads the same with a whitespace
/// character put in at any place, and what is left holds no whitespace.
pub proof fn lemma_whitespace_counts_nowhere(a: Seq<char>, w: char, b: Seq<char>)
    requires
        is_whitespace(w),
    ensures
        without_whitespace(a + seq![w] + b) == without_whitespace(a + b),
        forall|i: int|
            0 <= i < without_whitespace(a + b).len() ==> !is_whitespace(
                #[trigger] without_whitespace(a + b)[i],
            ),
{
    let keep = significant();
    Seq::filter_distributes_over_add(a + seq![w], b, keep);
    Seq::filter_distributes_over_add(a, seq![w], keep);
    Seq::filter_distributes_over_add(a, b, keep);
    assert(seq![w].filter(keep) =~= Seq::<char>::empty()) by {
        reveal_with_fuel(Seq::filter, 2);
        assert(seq![w].drop_last() =~= Seq::<char>::empty());
    }
    assert(a.filter(keep) + Seq::<char>::empty() =~= a.filter(keep));
    assert forall|i: int| 0 <= i < without_whitespace(a + b).len() implies !is_whitespace(
        #[trigger] without_whitespace(a + b)[i],
    ) by {
        (a + b).lemma_filter_pred(keep, i);
    }
}

/// Taking the whitespace out twice is taking it out once.
pub proof fn lemma_whitespace_out_once(s: Seq<char>)
    ensures
        without_whitespace(without_whitespace(s)) == without_whitespace(s),
{
    assert forall|i: int| 0 <= i < without_whitespace(s).len() implies !is_whitespace(
        #[trigger] without_whitespace(s)[i],
    ) by {
        s.lemma_filter_pred(significant(), i);
    }
    lemma_clean_stays(without_whitespace(s));
}

/// A line that holds no whitespace is left as it is.
pub proof fn lemma_clean_stays(s: Seq<char>)
    requires
        forall|i: int| 0 <= i < s.len() ==> !is_whitespace(#[trigger] s[i]),
    ensures
        without_whitespace(s) == s,
    decreases s.len(),
{
    reveal(Seq::filter);
    if s.len() > 0 {
        assert forall|i: int| 0 <= i < s.drop_last().len() implies !is_whitespace(
            #[trigger] s.drop_last()[i],
        ) by {
            assert(s.drop_last()[i] == s[i]);
        }
        lemma_clean_stays(s.drop_last());
        assert(s.drop_last().push(s.last()) =~= s);
    }
}

/// The fields of `s`: the stretches between its commas, in order. A line
/// with `k` commas has `k + 1` fields, some of them possibly empty.
pub open spec fn fields(s: Seq<char>) -> Seq<Seq<char>>
    decreases s.len(),
{
    if s.len() == 0 {
        seq![Seq::<char>::empty()]
    } else {
        let before = fields(s.drop_last());
        if s.last() == ',' {
            before.push(Seq::<char>::empty())
        } else {
            before.drop_last().push(before.last().push(s.last()))
        }
    }
}

/// How many commas `s` holds.
pub open spec fn comma_count(s: Seq<char>) -> nat
    decreases s.len(),
{
    if s.len() == 0 {
        0
    } else if s.last() == ',' {
        comma_count(s.drop_last()) + 1
    } else {
        comma_count(s.drop_last())
    }
}

/// The commas of two lines put end to end are those of both.
pub proof fn lemma_commas_add(a: Seq<char>, b: Seq<char>)
    ensures
        comma_count(a + b) == comma_count(a) + comma_count(b),
    decreases b.len(),
{
    if b.len() == 0 {
        assert(a + b =~= a);
    } else {
        lemma_commas_add(a, b.drop_last());
        assert((a + b).drop_last() =~= a + b.drop_last());
        assert((a + b).last() == b.last());
    }
}

/// Fields put together again, with one comma between neighbours.
pub open spec fn joined(f: Seq<Seq<char>>) -> Seq<char>
    decreases f.len(),
{
    if f.len() == 0 {
        Seq::<char>::empty()
    } else if f.len() == 1 {
        f[0]
    } else {
        joined(f.drop_last()) + seq![','] + f.last()
    }
}

/// What splitting means: there is one field more than there are commas,
/// no field holds a comma, and the fields with commas between them are the
/// line again.
pub proof fn lemma_fields_split(s: Seq<char>)
    ensures
        fields(s).len() == comma_count(s) + 1,
        forall|i: int, j: int|
            0 <= i < fields(s).len() && 0 <= j < fields(s)[i].len() ==> fields(s)[i][j] != ',',
        joined(fields(s)) == s,
    decreases s.len(),
{
    if s.len() == 0 {
        assert(joined(fields(s)) =~= s);
    } else {
        let before = fields(s.drop_last());
        let c = s.last();
        lemma_fields_split(s.drop_last());
        assert(s == s.drop_last().push(c));
        if c == ',' {
            assert(fields(s).drop_last() == before);
            assert(joined(fields(s)) =~= s);
        } else {
            let grown = before.last().push(c);
            assert(fields(s) == before.drop_last().push(grown));
            if before.len() == 1 {
                assert(joined(fields(s)) =~= s);
            } else {
                assert(fields(s).drop_last() == before.drop_last());
                assert(joined(fields(s)) =~= joined(before).push(c));
            }
            assert forall|i: int, j: int|
                0 <= i < fields(s).len() && 0 <= j < fields(s)[i].len() implies fields(s)[i][j]
                != ',' by {
                if i < before.len() - 1 {
                    assert(fields(s)[i] == before[i]);
                } else if j < before.last().len() {
                    assert(fields(s)[i][j] == before.last()[j]);
                }
            }
        }
    }
}

/// The views of a vector of character vectors.
pub open spec fn views(v: Seq<Vec<char>>) -> Seq<Seq<char>> {
    v.map_values(|f: Vec<char>| f@)
}

/// Whether `c` is whitespace.
pub fn char_is_whitespace(c: char) -> (r: bool)
    ensures
        r == is_whitespace(c),
{
    let n: u32 = c as u32;
    (0x09 <= n && n <= 0x0D) || n == 0x20 || n == 0x85 || n == 0xA0 || n == 0x1680 || (0x2000 <= n
        && n <= 0x200A) || n == 0x2028 || n == 0x2029 || n == 0x202F || n == 0x205F || n == 0x3000
}

/// The characters of `s`, one element each.
pub fn chars_of(s: &str) -> (v: Vec<char>)
    ensures
        v@ == s@,
{
    let mut v: Vec<char> = Vec::new();
    for c in it: s.chars()
        invariant
            it.seq() == s@,
            v@ == s@.take(it.index() as int),
    {
        v.push(c);
    }
    v
}

/// The characters of `line` that are not whitespace, in order.
pub fn drop_whitespace(line: &Vec<char>) -> (v: Vec<char>)
    ensures
        v@ == without_whitespace(line@),
{
    let mut v: Vec<char> = Vec::new();
    let mut i: usize = 0;
    proof {
        reveal(Seq::filter);
    }
    while i < line.len()
        invariant
            i <= line.len(),
            v@ == without_whitespace(line@.take(i as int)),
        decreases line.len() - i,
    {
        let c = line[i];
        proof {
            reveal(Seq::filter);
            assert(line@.take(i + 1).drop_last() == line@.take(i as int));
        }
        if !char_is_whitespace(c) {
            v.push(c);
        }
        i += 1;
    }
    proof {
        assert(line@.take(line@.len() as int) == line@);
    }
    v
}

/// The characters of `s` that are not whitespace, in order.
pub fn strip_whitespace(s: &str) -> (v: Vec<char>)
    ensures
        v@ == without_whitespace(s@),
{
    let line = chars_of(s);
    drop_whitespace(&line)
}

/// Splits `line` at its commas.
pub fn split_fields(line: &Vec<char>) -> (out: Vec<Vec<char>>)
    ensures
        views(out@) == fields(line@),
        out@.len() >= 1,
{
    let mut done: Vec<Vec<char>> = Vec::new();
    let mut current: Vec<char> = Vec::new();
    let mut i: usize = 0;
    while i < line.len()
        invariant
            i <= line.len(),
            views(done@).push(current@) == fields(line@.take(i as int)),
        decreases line.len() - i,
    {
        let c = line[i];
        proof {
            assert(line@.take(i + 1).drop_last() == line@.take(i as int));
            assert(line@.take(i + 1).last() == c);
        }
        if c == ',' {
            let ghost before = views(done@);
            done.push(current);
            assert(views(done@) == before.push(current@));
            current = Vec::new();
        } else {
            let ghost before = current@;
            current.push(c);
            assert(views(done@).push(before).drop_last() == views(done@));
        }
        i += 1;
    }
    proof {
        assert(line@.take(line@.len() as int) == line@);
    }
    let ghost before = views(done@);
    done.push(current);
    assert(views(done@) == before.push(current@));
    done
}

} // verus!
