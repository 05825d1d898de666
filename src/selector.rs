use vstd::prelude::*;

use crate::catalog::{is_supported, refs_view, tagged, GmatDatabase, QuestionType};

verus! {

/// Why a draw was refused.
#[derive(Debug, Clone, Copy, PartialEq, Eq, Structural)]
pub enum SelectError {
    /// The kind asked for is never drawn.
    UnsupportedCategory(QuestionType),
}

/// The smaller of two numbers.
pub open spec fn min_nat(a: nat, b: nat) -> nat {
    if a <= b {
        a
    } else {
        b
    }
}

/// `idx` lists pairwise distinct positions of `pool`, and `r` holds the items
/// at those positions, in that order.
pub open spec fn is_draw<A>(pool: Seq<A>, r: Seq<A>, idx: Seq<usize>) -> bool {
    &&& idx.len() == r.len()
    &&& idx.no_duplicates()
    &&& forall|k: int| 0 <= k < idx.len() ==> idx[k] < pool.len() && r[k] == pool[idx[k] as int]
}

/// `r` is a possible outcome of drawing `count` questions from the pool that
/// `filter` picks out of `db`: as many as asked for, or the whole pool when it
/// is smaller, without taking any position twice.
pub open spec fn is_selection(
    db: GmatDatabase,
    filter: Option<QuestionType>,
    count: nat,
    r: Seq<(QuestionType, Seq<char>)>,
) -> bool {
    &&& r.len() == min_nat(count, db.pool(filter).len())
    &&& exists|idx: Seq<usize>| is_draw(db.pool(filter), r, idx)
}

/// No two items of `s` share an identifier.
pub open spec fn ids_distinct(s: Seq<(QuestionType, Seq<char>)>) -> bool {
    forall|i: int, j: int| 0 <= i < s.len() && 0 <= j < s.len() && i != j ==> s[i].1 != s[j].1
}

/// Relies on rand::seq::index::sample, fed by rand::thread_rng: it returns
/// exactly `amount` distinct indices below `length`, and panics when `amount`
/// exceeds `length`.
#[verifier::external_body]
fn sample_indices(length: usize, amount: usize) -> (r: Vec<usize>)
    requires
        amount <= length,
    ensures
        r@.len() == amount,
        r@.no_duplicates(),
        forall|k: int| 0 <= k < r@.len() ==> r@[k] < length,
{
    rand::seq::index::sample(&mut rand::thread_rng(), length, amount).into_vec()
}

/// Appends the identifiers `ids`, each paired with the kind `t`.
fn append_tagged(items: &mut Vec<(QuestionType, String)>, t: QuestionType, ids: &Vec<String>)
    ensures
        refs_view(final(items)@) == refs_view(old(items)@) + tagged(t, ids@),
{
    let ghost start = refs_view(items@);
    let mut i: usize = 0;
    while i < ids.len()
        invariant
            i <= ids@.len(),
            refs_view(items@) == start + tagged(t, ids@.subrange(0, i as int)),
        decreases ids@.len() - i,
    {
        let ghost prev = items@;
        let id = ids[i].clone();
        items.push((t, id));
        proof {
            assert(items@ == prev.push((t, id)));
            assert(refs_view(items@) =~= refs_view(prev).push((t, ids@[i as int]@)));
        }
        i = i + 1;
        assert(refs_view(items@) =~= start + tagged(t, ids@.subrange(0, i as int)));
    }
    assert(ids@.subrange(0, ids@.len() as int) =~= ids@);
}

/// Builds the pool that `filter` picks out of `database`.
pub fn pool_items(database: &GmatDatabase, filter: &Option<QuestionType>) -> (r: Vec<
    (QuestionType, String),
>)
    ensures
        refs_view(r@) == database.pool(*filter),
{
    let mut items: Vec<(QuestionType, String)> = Vec::new();
    proof {
        assert(refs_view(items@) =~= Seq::empty());
    }
    match filter {
        Some(t) => {
            append_tagged(&mut items, *t, database.get_questions_by_type(t));
            assert(refs_view(items@) =~= database.pool(*filter));
        },
        None => {
            let all_questions = database.get_all_questions();
            append_tagged(&mut items, all_questions[0].0, all_questions[0].1);
            append_tagged(&mut items, all_questions[1].0, all_questions[1].1);
            append_tagged(&mut items, all_questions[2].0, all_questions[2].1);
            append_tagged(&mut items, all_questions[3].0, all_questions[3].1);
            assert(refs_view(items@) =~= database.pool(*filter));
        },
    }
    items
}

/// Takes the items of `pool` at the positions `indices`, in that order.
pub fn select_by_indices(pool: &Vec<(QuestionType, String)>, indices: &Vec<usize>) -> (r: Vec<
    (QuestionType, String),
>)
    requires
        forall|k: int| 0 <= k < indices@.len() ==> indices@[k] < pool@.len(),
    ensures
        r@.len() == indices@.len(),
        forall|k: int|
            0 <= k < indices@.len() ==> refs_view(r@)[k] == refs_view(pool@)[indices@[k] as int],
{
    let mut r: Vec<(QuestionType, String)> = Vec::new();
    let mut k: usize = 0;
    while k < indices.len()
        invariant
            k <= indices@.len(),
            r@.len() == k,
            forall|j: int| 0 <= j < indices@.len() ==> indices@[j] < pool@.len(),
            forall|j: int|
                0 <= j < k ==> refs_view(r@)[j] == refs_view(pool@)[indices@[j] as int],
        decreases indices@.len() - k,
    {
        let p = indices[k];
        let item = (pool[p].0, pool[p].1.clone());
        let ghost prev = r@;
        r.push(item);
        proof {
            assert(r@ == prev.push(item));
            assert forall|j: int| 0 <= j < k implies refs_view(r@)[j] == refs_view(prev)[j] by {
                assert(r@[j] == prev[j]);
            }
            assert(refs_view(r@)[k as int] == refs_view(pool@)[p as int]);
            assert forall|j: int| 0 <= j < k + 1 implies refs_view(r@)[j] == refs_view(
                pool@,
            )[indices@[j] as int] by {
                if j < k {
                    assert(refs_view(prev)[j] == refs_view(pool@)[indices@[j] as int]);
                }
            }
        }
        k = k + 1;
    }
    r
}

/// Draws `count` questions at random, without replacement, from the pool that
/// `question_type` picks out (see `GmatDatabase::pool`). Asking for the
/// unsupported kind is refused.
pub fn pick_random_questions(
    database: &GmatDatabase,
    question_type: &Option<QuestionType>,
    count: usize,
) -> (r: Result<Vec<(QuestionType, String)>, SelectError>)
    ensures
        *question_type == Some(QuestionType::RC) <==> r is Err,
        r matches Err(e) ==> e == SelectError::UnsupportedCategory(QuestionType::RC),
        r matches Ok(v) ==> is_selection(*database, *question_type, count as nat, refs_view(v@)),
{
    if let Some(t) = question_type {
        if !t.is_selectable() {
            return Err(SelectError::UnsupportedCategory(*t));
        }
    }
    let pool = pool_items(database, question_type);
    let amount = if count < pool.len() {
        count
    } else {
        pool.len()
    };
    let indices = sample_indices(pool.len(), amount);
    let selected = select_by_indices(&pool, &indices);
    proof {
        let p = database.pool(*question_type);
        assert(refs_view(selected@) =~= Seq::new(
            indices@.len(),
            |k: int| p[indices@[k] as int],
        ));
        assert(is_draw(p, refs_view(selected@), indices@));
    }
    Ok(selected)
}

/// With no kind asked for, a draw never holds a question of the unsupported
/// kind.
pub proof fn lemma_unfiltered_selection_is_supported(
    db: GmatDatabase,
    count: nat,
    r: Seq<(QuestionType, Seq<char>)>,
)
    requires
        is_selection(db, None, count, r),
    ensures
        forall|k: int| 0 <= k < r.len() ==> is_supported(#[trigger] r[k].0),
{
    let idx = choose|idx: Seq<usize>| is_draw(db.pool(None), r, idx);
    let p = db.pool(None);
    assert forall|j: int| 0 <= j < p.len() implies is_supported(#[trigger] p[j].0) by {
        let a = tagged(QuestionType::SC, db.sentence_correction@);
        let b = tagged(QuestionType::CR, db.critical_reasoning@);
        let c = tagged(QuestionType::PS, db.problem_solving@);
        let d = tagged(QuestionType::DS, db.data_sufficiency@);
        assert(p == a + b + c + d);
        if j < a.len() {
        } else if j < a.len() + b.len() {
            assert(p[j] == b[j - a.len()]);
        } else if j < a.len() + b.len() + c.len() {
            assert(p[j] == c[j - a.len() - b.len()]);
        } else {
            assert(p[j] == d[j - a.len() - b.len() - c.len()]);
        }
    }
    assert forall|k: int| 0 <= k < r.len() implies is_supported(#[trigger] r[k].0) by {
        assert(r[k] == p[idx[k] as int]);
    }
}

/// When the pool holds no identifier twice, neither does a draw from it, and
/// the draw holds as many questions as asked for, or the whole pool when it is
/// smaller.
pub proof fn lemma_selection_has_distinct_ids(
    db: GmatDatabase,
    filter: Option<QuestionType>,
    count: nat,
    r: Seq<(QuestionType, Seq<char>)>,
)
    requires
        is_selection(db, filter, count, r),
        ids_distinct(db.pool(filter)),
    ensures
        ids_distinct(r),
        r.len() == min_nat(count, db.pool(filter).len()),
{
    let idx = choose|idx: Seq<usize>| is_draw(db.pool(filter), r, idx);
    let p = db.pool(filter);
    assert forall|i: int, j: int|
        0 <= i < r.len() && 0 <= j < r.len() && i != j implies r[i].1 != r[j].1 by {
        assert(r[i] == p[idx[i] as int]);
        assert(r[j] == p[idx[j] as int]);
        assert(idx[i] != idx[j]);
    }
}

} // verus!
