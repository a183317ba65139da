//! Laws relating the store's operations, stated over the store's model and
//! proved from the shapes that the operations' contracts give.

use vstd::prelude::*;

use crate::{TodoView, has_id, idx_of, distinct_ids, wf_records, without_id};

verus! {

/// A position in `s` carrying `id` witnesses `has_id`, and with distinct
/// identifiers it is the position `idx_of` names.
pub proof fn lemma_unique_index(s: Seq<TodoView>, id: Seq<char>, i: int)
    requires
        distinct_ids(s),
        0 <= i < s.len(),
        s[i].id == id,
    ensures
        has_id(s, id),
        idx_of(s, id) == i,
{
    assert(has_id(s, id));
    let j = idx_of(s, id);
    if j != i {
        assert(s[i].id != s[j].id);
    }
}

/// After an add with task `t` returned record `r`, the store holds exactly
/// one record carrying `r`'s identifier; that record is `r`, so its task is
/// `t`, its `done` flag is false and its identifier is non-empty. A listing
/// of the store therefore includes exactly one such record.
pub proof fn lemma_add_lists_one_record(
    pre: Seq<TodoView>,
    post: Seq<TodoView>,
    r: TodoView,
    t: Seq<char>,
)
    requires
        wf_records(pre),
        r.task == t,
        !r.done,
        r.id.len() > 0,
        post == without_id(pre, r.id).push(r),
    ensures
        wf_records(post),
        post[post.len() - 1] == r,
        forall|i: int| 0 <= i < post.len() && post[i].id == r.id ==> post[i] == r,
{
    let base = without_id(pre, r.id);
    lemma_without_id(pre, r.id);
    assert(post[post.len() - 1] == r);
    assert forall|i: int| 0 <= i < post.len() && post[i].id == r.id implies post[i] == r by {
        if i < base.len() {
            assert(post[i] == base[i]);
            assert(has_id(base, r.id));
        }
    }
    lemma_distinct_push(base, r);
}

/// Two adds in a row whose generated identifiers differ leave both new
/// records present, distinguishable by identifier even when their task texts
/// are equal.
pub proof fn lemma_two_adds_distinct(
    pre: Seq<TodoView>,
    mid: Seq<TodoView>,
    post: Seq<TodoView>,
    r1: TodoView,
    r2: TodoView,
)
    requires
        wf_records(pre),
        r1.id.len() > 0,
        r2.id.len() > 0,
        r1.id != r2.id,
        mid == without_id(pre, r1.id).push(r1),
        post == without_id(mid, r2.id).push(r2),
    ensures
        wf_records(post),
        has_id(post, r1.id),
        has_id(post, r2.id),
{
    lemma_without_id(pre, r1.id);
    lemma_distinct_push(without_id(pre, r1.id), r1);
    lemma_without_id(mid, r2.id);
    let base = without_id(mid, r2.id);
    assert(has_id(mid, r1.id)) by {
        assert(mid[mid.len() - 1] == r1);
    }
    assert(has_id(base, r1.id));
    let j = choose|j: int| 0 <= j < base.len() && base[j].id == r1.id;
    assert(post[j] == base[j]);
    assert(post[post.len() - 1] == r2);
    lemma_distinct_push(base, r2);
}

/// Deleting the identifier of a record just added succeeds — the identifier
/// is present, so the delete reports success naming it — and removes it: the
/// store afterwards holds no record with that identifier.
pub proof fn lemma_add_then_delete(
    pre: Seq<TodoView>,
    mid: Seq<TodoView>,
    post: Seq<TodoView>,
    r: TodoView,
)
    requires
        wf_records(pre),
        r.id.len() > 0,
        mid == without_id(pre, r.id).push(r),
        post == without_id(mid, r.id),
    ensures
        has_id(mid, r.id),
        !has_id(post, r.id),
{
    lemma_without_id(pre, r.id);
    lemma_distinct_push(without_id(pre, r.id), r);
    assert(has_id(mid, r.id)) by {
        assert(mid[mid.len() - 1] == r);
    }
    lemma_without_id(mid, r.id);
}

/// An add grows the store by one record when its generated identifier was
/// fresh and otherwise keeps the record count; a delete shrinks the store by
/// one record when the identifier was present and otherwise changes nothing.
/// Runs of adds and deletes therefore leave as many records as adds with
/// fresh identifiers minus deletes of present identifiers.
pub proof fn lemma_operation_counts(
    pre: Seq<TodoView>,
    added: Seq<TodoView>,
    deleted: Seq<TodoView>,
    r: TodoView,
    id: Seq<char>,
)
    requires
        wf_records(pre),
        added == without_id(pre, r.id).push(r),
        deleted == without_id(pre, id),
    ensures
        !has_id(pre, r.id) ==> added.len() == pre.len() + 1,
        has_id(pre, r.id) ==> added.len() == pre.len(),
        has_id(pre, id) ==> deleted.len() == pre.len() - 1,
        !has_id(pre, id) ==> deleted == pre,
{
    lemma_without_id(pre, r.id);
    lemma_without_id(pre, id);
}

/// `without_id` keeps the invariant, holds no record carrying the removed
/// identifier, keeps every other identifier, and shrinks the record count by
/// one exactly when the identifier was present.
pub proof fn lemma_without_id(s: Seq<TodoView>, id: Seq<char>)
    requires
        wf_records(s),
    ensures
        wf_records(without_id(s, id)),
        !has_id(without_id(s, id), id),
        forall|other: Seq<char>|
            other != id ==> (#[trigger] has_id(without_id(s, id), other) <==> has_id(s, other)),
        has_id(s, id) ==> without_id(s, id).len() == s.len() - 1,
        !has_id(s, id) ==> without_id(s, id) == s,
{
    if has_id(s, id) {
        let i = idx_of(s, id);
        assert(0 <= i < s.len() && s[i].id == id);
        let r = s.remove(i);
        s.remove_ensures(i);
        assert forall|j: int, k: int|
            0 <= j < r.len() && 0 <= k < r.len() && j != k implies r[j].id != r[k].id by {
            let j0 = if j < i { j } else { j + 1 };
            let k0 = if k < i { k } else { k + 1 };
            assert(r[j] == s[j0] && r[k] == s[k0]);
        }
        assert forall|j: int| 0 <= j < r.len() implies r[j].id.len() > 0 by {
            let j0 = if j < i { j } else { j + 1 };
            assert(r[j] == s[j0]);
        }
        assert forall|j: int| 0 <= j < r.len() implies r[j].id != id by {
            let j0 = if j < i { j } else { j + 1 };
            assert(r[j] == s[j0]);
            assert(s[j0].id != s[i].id);
        }
        assert forall|other: Seq<char>|
            other != id && #[trigger] has_id(s, other) implies has_id(r, other) by {
            let j0 = choose|j0: int| 0 <= j0 < s.len() && s[j0].id == other;
            assert(j0 != i);
            let j = if j0 < i { j0 } else { j0 - 1 };
            assert(r[j] == s[j0]);
            assert(0 <= j < r.len() && r[j].id == other);
        }
        assert forall|other: Seq<char>|
            #[trigger] has_id(r, other) && other != id implies has_id(s, other) by {
            let j = choose|j: int| 0 <= j < r.len() && r[j].id == other;
            let j0 = if j < i { j } else { j + 1 };
            assert(r[j] == s[j0]);
            assert(0 <= j0 < s.len() && s[j0].id == other);
        }
    }
}

/// Appending a record whose identifier is absent keeps the identifiers
/// distinct and non-empty, and adds exactly that identifier.
pub proof fn lemma_distinct_push(s: Seq<TodoView>, t: TodoView)
    requires
        wf_records(s),
        !has_id(s, t.id),
        t.id.len() > 0,
    ensures
        wf_records(s.push(t)),
        has_id(s.push(t), t.id),
        forall|id: Seq<char>| #[trigger] has_id(s, id) ==> has_id(s.push(t), id),
        forall|id: Seq<char>|
            #[trigger] has_id(s.push(t), id) ==> id == t.id || has_id(s, id),
{
    let p = s.push(t);
    assert(p[s.len() as int] == t);
    assert forall|i: int, j: int|
        0 <= i < p.len() && 0 <= j < p.len() && i != j implies p[i].id != p[j].id by {
        if i < s.len() && j < s.len() {
            assert(p[i] == s[i] && p[j] == s[j]);
        } else if i < s.len() {
            assert(p[i] == s[i] && p[j] == t);
            if s[i].id == t.id {
                assert(has_id(s, t.id));
            }
        } else {
            assert(p[i] == t && p[j] == s[j]);
            if s[j].id == t.id {
                assert(has_id(s, t.id));
            }
        }
    }
    assert forall|i: int| 0 <= i < p.len() implies p[i].id.len() > 0 by {
        if i < s.len() {
            assert(p[i] == s[i]);
        } else {
            assert(p[i] == t);
        }
    }
    assert forall|id: Seq<char>| #[trigger] has_id(s, id) implies has_id(p, id) by {
        let j = choose|j: int| 0 <= j < s.len() && s[j].id == id;
        assert(p[j] == s[j]);
    }
    assert forall|id: Seq<char>|
        #[trigger] has_id(p, id) && id != t.id implies has_id(s, id) by {
        let j = choose|j: int| 0 <= j < p.len() && p[j].id == id;
        assert(j < s.len());
        assert(p[j] == s[j]);
    }
}

} // verus!
