//! Daily ranking.
//!
//! Given the day-status points of every classroom in a school for the
//! current date, in the order the store returned them, the engine orders
//! them by point descending — stably, so that among equal points the
//! first-fetched row keeps the lower rank number — and reports the 1-based
//! rank of the requesting classroom.  A classroom without a row for the
//! day is ranked last, with zero points.

use vstd::prelude::*;

verus! {

/// One classroom's point total for the day, as fetched from the store.
#[derive(Debug)]
pub struct ClassroomPoint {
    /// Classroom the total belongs to.
    pub class_id: String,
    /// Point total of the day.
    pub point: i64,
}

/// Mathematical image of a fetched row.
#[verifier::ext_equal]
pub ghost struct ClassroomPointView {
    pub class_id: Seq<char>,
    pub point: int,
}

impl View for ClassroomPoint {
    type V = ClassroomPointView;

    open spec fn view(&self) -> ClassroomPointView {
        ClassroomPointView { class_id: self.class_id@, point: self.point as int }
    }
}

impl Clone for ClassroomPoint {
    /// Copies the row.
    fn clone(&self) -> (res: Self)
        ensures
            res@ == self@,
    {
        ClassroomPoint { class_id: self.class_id.clone(), point: self.point }
    }
}

/// Rank report for one classroom: its points, its 1-based rank for the
/// day, and how many classrooms its school has.
#[derive(Clone, Copy, Debug, PartialEq, Eq, Structural)]
pub struct PointResponse {
    /// Point total of the requesting classroom for the day.
    pub point: i64,
    /// 1-based rank of the requesting classroom.
    pub rank: i64,
    /// Number of classrooms registered under the same school.
    pub class_num: i64,
}

/// Views of a run of fetched rows.
pub open spec fn views_of(rows: Seq<ClassroomPoint>) -> Seq<ClassroomPointView> {
    rows.map_values(|row: ClassroomPoint| row@)
}

/// Position a stable descending insertion gives a new row with point `p`:
/// just past every row already ranked at `p` or higher, so an equal
/// earlier row keeps the lower rank number.
pub open spec fn insertion_index(s: Seq<ClassroomPointView>, p: int) -> int
    decreases s.len(),
{
    if s.len() == 0 {
        0
    } else if s.first().point >= p {
        1 + insertion_index(s.drop_first(), p)
    } else {
        0
    }
}

/// One stable descending insertion.
pub open spec fn insert_desc(
    s: Seq<ClassroomPointView>,
    row: ClassroomPointView,
) -> Seq<ClassroomPointView> {
    s.insert(insertion_index(s, row.point), row)
}

/// The descending-point ordering of the fetched rows: each row inserted in
/// fetch order, equal points keeping fetch order.
pub open spec fn stable_sort_desc(s: Seq<ClassroomPointView>) -> Seq<ClassroomPointView>
    decreases s.len(),
{
    if s.len() == 0 {
        Seq::empty()
    } else {
        insert_desc(stable_sort_desc(s.drop_last()), s.last())
    }
}

/// Point-descending order.
pub open spec fn sorted_desc(s: Seq<ClassroomPointView>) -> bool {
    forall|i: int, j: int| 0 <= i < j < s.len() ==> s[i].point >= s[j].point
}

/// Index of the first row of a given classroom, if any.
pub open spec fn first_match(s: Seq<ClassroomPointView>, class_id: Seq<char>) -> Option<int>
    decreases s.len(),
{
    if s.len() == 0 {
        None
    } else if s.first().class_id == class_id {
        Some(0)
    } else {
        match first_match(s.drop_first(), class_id) {
            Some(k) => Some(k + 1),
            None => None,
        }
    }
}

/// The insertion index is the length of the maximal prefix of rows with
/// point at least `p`.
pub proof fn lemma_insertion_index_bounds(s: Seq<ClassroomPointView>, p: int)
    ensures
        0 <= insertion_index(s, p) <= s.len(),
        forall|j: int| 0 <= j < insertion_index(s, p) ==> s[j].point >= p,
        insertion_index(s, p) < s.len() ==> s[insertion_index(s, p)].point < p,
    decreases s.len(),
{
    if s.len() > 0 && s.first().point >= p {
        lemma_insertion_index_bounds(s.drop_first(), p);
        let k: int = insertion_index(s, p);
        assert forall|j: int| 0 <= j < k implies s[j].point >= p by {
            if j > 0 {
                assert(s.drop_first()[j - 1] == s[j]);
            }
        }
        if k < s.len() {
            assert(s.drop_first()[k - 1] == s[k]);
        }
    }
}

/// Any index with the prefix property of [`lemma_insertion_index_bounds`]
/// is the insertion index.
pub proof fn lemma_insertion_index_unique(s: Seq<ClassroomPointView>, p: int, i: int)
    requires
        0 <= i <= s.len(),
        forall|j: int| 0 <= j < i ==> s[j].point >= p,
        i < s.len() ==> s[i].point < p,
    ensures
        insertion_index(s, p) == i,
    decreases s.len(),
{
    if s.len() > 0 {
        if i == 0 {
        } else {
            assert(s[0].point >= p);
            assert forall|j: int| 0 <= j < i - 1 implies s.drop_first()[j].point >= p by {
                assert(s.drop_first()[j] == s[j + 1]);
            }
            if i - 1 < s.len() - 1 {
                assert(s.drop_first()[i - 1] == s[i]);
            }
            lemma_insertion_index_unique(s.drop_first(), p, i - 1);
        }
    }
}

/// The stable descending ordering is a reordering: it keeps the length.
pub proof fn lemma_stable_sort_len(s: Seq<ClassroomPointView>)
    ensures
        stable_sort_desc(s).len() == s.len(),
    decreases s.len(),
{
    if s.len() > 0 {
        lemma_stable_sort_len(s.drop_last());
        let sorted = stable_sort_desc(s.drop_last());
        lemma_insertion_index_bounds(sorted, s.last().point);
        sorted.insert_ensures(insertion_index(sorted, s.last().point), s.last());
    }
}

/// The stable descending ordering is a reordering: it holds exactly the
/// fetched rows, with their multiplicities.
pub proof fn lemma_stable_sort_permutes(s: Seq<ClassroomPointView>)
    ensures
        stable_sort_desc(s).to_multiset() == s.to_multiset(),
    decreases s.len(),
{
    broadcast use vstd::seq_lib::group_to_multiset_ensures;

    if s.len() > 0 {
        lemma_stable_sort_permutes(s.drop_last());
        let sorted = stable_sort_desc(s.drop_last());
        let row = s.last();
        let k: int = insertion_index(sorted, row.point);
        lemma_insertion_index_bounds(sorted, row.point);
        let out = insert_desc(sorted, row);
        sorted.insert_ensures(k, row);
        assert(out.remove(k) =~= sorted);
        assert(out.remove(k).to_multiset() =~= out.to_multiset().remove(out[k]));
        assert(out.to_multiset().contains(row));
        assert(out.to_multiset() =~= sorted.to_multiset().insert(row));
        assert(s.drop_last().push(row) =~= s);
        assert(s.to_multiset() =~= s.drop_last().to_multiset().insert(row));
    }
}

/// A stable descending insertion keeps the run sorted.
pub proof fn lemma_insert_desc_sorted(s: Seq<ClassroomPointView>, row: ClassroomPointView)
    requires
        sorted_desc(s),
    ensures
        sorted_desc(insert_desc(s, row)),
{
    lemma_insertion_index_bounds(s, row.point);
    let k: int = insertion_index(s, row.point);
    let out = insert_desc(s, row);
    s.insert_ensures(k, row);
    assert forall|i: int, j: int| 0 <= i < j < out.len() implies out[i].point >= out[j].point by {
        if i < k && j < k {
        } else if i < k && j == k {
            assert(out[i] == s[i]);
        } else if i == k && k < j {
            assert(out[j] == s[j - 1]);
            assert(s[k].point < row.point);
            if j - 1 > k {
                assert(s[k].point >= s[j - 1].point);
            }
        } else if i < k && k < j {
            assert(out[i] == s[i]);
            assert(out[j] == s[j - 1]);
            if i < j - 1 {
                assert(s[i].point >= s[j - 1].point);
            }
        } else {
            assert(out[i] == s[i - 1]);
            assert(out[j] == s[j - 1]);
        }
    }
}

/// The stable descending ordering is sorted.
pub proof fn lemma_stable_sort_sorted(s: Seq<ClassroomPointView>)
    ensures
        sorted_desc(stable_sort_desc(s)),
    decreases s.len(),
{
    if s.len() > 0 {
        lemma_stable_sort_sorted(s.drop_last());
        lemma_insert_desc_sorted(stable_sort_desc(s.drop_last()), s.last());
    }
}

/// An index before which a classroom does not appear, and at which it
/// does, is its first match.
proof fn lemma_first_match_found(s: Seq<ClassroomPointView>, class_id: Seq<char>, i: int)
    requires
        0 <= i < s.len(),
        forall|j: int| 0 <= j < i ==> s[j].class_id != class_id,
        s[i].class_id == class_id,
    ensures
        first_match(s, class_id) == Some(i),
    decreases s.len(),
{
    if i == 0 {
    } else {
        assert(s[0].class_id != class_id);
        assert forall|j: int| 0 <= j < i - 1 implies s.drop_first()[j].class_id != class_id by {
            assert(s.drop_first()[j] == s[j + 1]);
        }
        assert(s.drop_first()[i - 1] == s[i]);
        lemma_first_match_found(s.drop_first(), class_id, i - 1);
    }
}

/// A classroom that appears nowhere has no first match.
proof fn lemma_first_match_absent(s: Seq<ClassroomPointView>, class_id: Seq<char>)
    requires
        forall|j: int| 0 <= j < s.len() ==> s[j].class_id != class_id,
    ensures
        first_match(s, class_id) is None,
    decreases s.len(),
{
    if s.len() > 0 {
        assert forall|j: int| 0 <= j < s.len() - 1 implies s.drop_first()[j].class_id
            != class_id by {
            assert(s.drop_first()[j] == s[j + 1]);
        }
        lemma_first_match_absent(s.drop_first(), class_id);
    }
}

/// Position at which a stable descending insertion places point `p` in an
/// already ordered run.
fn insertion_point(rows: &Vec<ClassroomPoint>, p: i64) -> (idx: usize)
    ensures
        idx as int == insertion_index(views_of(rows@), p as int),
{
    let ghost s = views_of(rows@);
    let mut i: usize = 0;
    while i < rows.len()
        invariant
            0 <= i <= rows@.len(),
            s == views_of(rows@),
            forall|j: int| 0 <= j < i ==> s[j].point >= p,
        decreases rows@.len() - i,
    {
        if rows[i].point < p {
            proof {
                lemma_insertion_index_unique(s, p as int, i as int);
            }
            return i;
        }
        i += 1;
    }
    proof {
        lemma_insertion_index_unique(s, p as int, i as int);
    }
    i
}

/// Orders the fetched rows by point descending, stably: among equal
/// points, the first-fetched row comes first.
pub fn sort_by_point_desc(rows: &Vec<ClassroomPoint>) -> (out: Vec<ClassroomPoint>)
    ensures
        views_of(out@) == stable_sort_desc(views_of(rows@)),
        sorted_desc(views_of(out@)),
        out@.len() == rows@.len(),
        views_of(out@).to_multiset() == views_of(rows@).to_multiset(),
{
    let mut out: Vec<ClassroomPoint> = Vec::new();
    let mut i: usize = 0;
    while i < rows.len()
        invariant
            0 <= i <= rows@.len(),
            views_of(out@) == stable_sort_desc(views_of(rows@.subrange(0, i as int))),
        decreases rows@.len() - i,
    {
        let row = rows[i].clone();
        let pos: usize = insertion_point(&out, row.point);
        proof {
            lemma_insertion_index_bounds(views_of(out@), row.point as int);
        }
        out.insert(pos, row);
        proof {
            let prefix = rows@.subrange(0, i as int);
            let prefix1 = rows@.subrange(0, i as int + 1);
            assert(views_of(prefix1).drop_last() =~= views_of(prefix));
            assert(views_of(prefix1).last() == rows@[i as int]@);
            assert(views_of(out@) =~= insert_desc(
                stable_sort_desc(views_of(prefix)),
                rows@[i as int]@,
            ));
        }
        i += 1;
    }
    proof {
        assert(views_of(rows@.subrange(0, rows@.len() as int)) =~= views_of(rows@));
        assert(views_of(out@) == stable_sort_desc(views_of(rows@)));
        lemma_stable_sort_sorted(views_of(rows@));
        lemma_stable_sort_len(views_of(rows@));
        lemma_stable_sort_permutes(views_of(rows@));
    }
    out
}

/// Computes the requesting classroom's `(point, rank, class_count)` for
/// the day: rows are ordered by point descending (fetch order kept among
/// ties), rank is the classroom's 1-based position in that ordering, and a
/// classroom without a row is ranked last with zero points.
pub fn compute_rank(class_id: &String, rows: &Vec<ClassroomPoint>, class_num: i64) -> (r:
    PointResponse)
    requires
        rows@.len() < 0x7fff_ffff_ffff_ffff,
    ensures
        r.class_num == class_num,
        ({
            let ordered = stable_sort_desc(views_of(rows@));
            match first_match(ordered, class_id@) {
                Some(i) => r.rank == i + 1 && r.point == ordered[i].point,
                None => r.rank == class_num && r.point == 0,
            }
        }),
{
    let ordered = sort_by_point_desc(rows);
    let ghost s = views_of(ordered@);
    let mut i: usize = 0;
    while i < ordered.len()
        invariant
            0 <= i <= ordered@.len(),
            ordered@.len() < 0x7fff_ffff_ffff_ffff,
            s == views_of(ordered@),
            s == stable_sort_desc(views_of(rows@)),
            forall|j: int| 0 <= j < i ==> s[j].class_id != class_id@,
        decreases ordered@.len() - i,
    {
        if ordered[i].class_id == *class_id {
            proof {
                assert(s[i as int] == ordered@[i as int]@);
                lemma_first_match_found(s, class_id@, i as int);
            }
            return PointResponse {
                point: ordered[i].point,
                rank: (i as i64) + 1,
                class_num,
            };
        }
        i += 1;
    }
    proof {
        lemma_first_match_absent(s, class_id@);
    }
    PointResponse { point: 0, rank: class_num, class_num }
}

} // verus!
