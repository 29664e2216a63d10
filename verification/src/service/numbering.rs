use vstd::prelude::*;

verus! {

/// The largest of `ids`, or 0 where none is larger than 0.
pub open spec fn max_or_zero(ids: Seq<i32>) -> int
    decreases ids.len(),
{
    if ids.len() == 0 {
        0
    } else {
        let m = max_or_zero(ids.drop_last());
        if ids.last() > m {
            ids.last() as int
        } else {
            m
        }
    }
}

/// The number given to the next record: one more than the largest number in
/// use, and 1 where none is in use (or all are below 1).
pub open spec fn next_number(ids: Seq<i32>) -> int {
    max_or_zero(ids) + 1
}

/// `max_or_zero` is at least 0, at least every id, and is 0 or one of them.
pub proof fn lemma_max_or_zero(ids: Seq<i32>)
    ensures
        max_or_zero(ids) >= 0,
        forall|i: int| 0 <= i < ids.len() ==> ids[i] <= max_or_zero(ids),
        max_or_zero(ids) == 0 || exists|i: int| 0 <= i < ids.len() && ids[i] == max_or_zero(ids),
    decreases ids.len(),
{
    if ids.len() > 0 {
        let init = ids.drop_last();
        lemma_max_or_zero(init);
        assert forall|i: int| 0 <= i < ids.len() implies ids[i] <= max_or_zero(ids) by {
            if i < ids.len() - 1 {
                assert(ids[i] == init[i]);
            }
        }
        if max_or_zero(ids) != 0 {
            if ids.last() > max_or_zero(init) {
                assert(ids[ids.len() - 1] == max_or_zero(ids));
            } else {
                let j = choose|j: int| 0 <= j < init.len() && init[j] == max_or_zero(init);
                assert(ids[j] == max_or_zero(ids));
            }
        }
    }
}

/// Law: the next number is fresh. It is at least 1, larger than every
/// number in use, and so equal to none of them.
pub proof fn lemma_next_number_fresh(ids: Seq<i32>)
    ensures
        next_number(ids) >= 1,
        forall|i: int| 0 <= i < ids.len() ==> ids[i] < next_number(ids),
        next_number(ids) <= i32::MAX ==> !ids.contains(next_number(ids) as i32),
{
    lemma_max_or_zero(ids);
}

/// Law: numbering keeps numbers unique. Where the numbers in use are
/// pairwise distinct, they stay so once the next number joins them.
pub proof fn lemma_next_number_keeps_unique(ids: Seq<i32>)
    requires
        ids.no_duplicates(),
        next_number(ids) <= i32::MAX,
    ensures
        ids.push(next_number(ids) as i32).no_duplicates(),
{
    lemma_max_or_zero(ids);
    let s = ids.push(next_number(ids) as i32);
    assert forall|i: int, j: int| 0 <= i < s.len() && 0 <= j < s.len() && i != j implies s[i]
        != s[j] by {
        if i < ids.len() && j < ids.len() {
            assert(s[i] == ids[i] && s[j] == ids[j]);
        } else if i < ids.len() {
            assert(s[i] == ids[i]);
        } else {
            assert(s[j] == ids[j]);
        }
    }
}

/// The number for the next record, given the numbers in use.
pub fn next_record_number(ids: &Vec<i32>) -> (res: i32)
    requires
        forall|i: int| 0 <= i < ids.len() ==> ids[i] < i32::MAX,
    ensures
        res == next_number(ids@),
        res >= 1,
        forall|i: int| 0 <= i < ids.len() ==> ids[i] < res,
{
    let mut no: i32 = 0;
    let mut i: usize = 0;
    while i < ids.len()
        invariant
            i <= ids.len(),
            no == max_or_zero(ids@.take(i as int)),
            forall|k: int| 0 <= k < ids.len() ==> ids[k] < i32::MAX,
        decreases ids.len() - i,
    {
        assert(ids@.take(i + 1).drop_last() =~= ids@.take(i as int));
        if ids[i] > no {
            no = ids[i];
        }
        i = i + 1;
    }
    assert(ids@.take(ids.len() as int) =~= ids@);
    proof {
        lemma_max_or_zero(ids@);
        if no != 0 {
            let j = choose|j: int| 0 <= j < ids.len() && ids@[j] == no;
        }
    }
    no + 1
}

} // verus!
