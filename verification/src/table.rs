//! Tables as sequences of rows: finding a row by its key, and keeping the rows
//! that a predicate picks.

use vstd::prelude::*;

use crate::entity::{Owned, Record};

verus! {

/// Some row of the table has the key `id`.
pub open spec fn has_key<R: Record>(rows: Seq<R>, id: i32) -> bool {
    exists|i: int| 0 <= i < rows.len() && (#[trigger] rows[i]).key() == id
}

/// No two rows of the table share a key.
pub open spec fn distinct_keys<R: Record>(rows: Seq<R>) -> bool {
    forall|i: int, j: int|
        0 <= i < j < rows.len() ==> (#[trigger] rows[i]).key() != (#[trigger] rows[j]).key()
}

/// A table whose keys were given out one by one from 1 on, `next` being the
/// key that comes next.
pub open spec fn keyed<R: Record>(rows: Seq<R>, next: i32) -> bool {
    &&& 1 <= next
    &&& distinct_keys(rows)
    &&& forall|i: int| 0 <= i < rows.len() ==> 1 <= (#[trigger] rows[i]).key() < next
}

/// The child has no parent, or its parent is in `parents`.
pub open spec fn owner_in<C: Owned, P: Record>(child: C, parents: Seq<P>) -> bool {
    match child.owner() {
        Some(parent) => has_key(parents, parent),
        None => true,
    }
}

/// Every child that names a parent names one that is in `parents`.
pub open spec fn owners_in<C: Owned, P: Record>(children: Seq<C>, parents: Seq<P>) -> bool {
    forall|i: int| 0 <= i < children.len() ==> owner_in(#[trigger] children[i], parents)
}

/// The row with the key `id`, where the table has one.
pub open spec fn find<R: Record>(rows: Seq<R>, id: i32) -> Option<R> {
    if has_key(rows, id) {
        Some(rows[choose|i: int| 0 <= i < rows.len() && (#[trigger] rows[i]).key() == id])
    } else {
        None
    }
}

pub open spec fn key_is_not<R: Record>(id: i32) -> spec_fn(R) -> bool {
    |r: R| r.key() != id
}

pub open spec fn owner_is<C: Owned>(owner: i32) -> spec_fn(C) -> bool {
    |c: C| c.owner() == Some(owner)
}

pub open spec fn owner_among<C: Owned, P: Record>(parents: Seq<P>) -> spec_fn(C) -> bool {
    |c: C| owner_in(c, parents)
}

/// The table without the row that has the key `id`.
pub open spec fn without_key<R: Record>(rows: Seq<R>, id: i32) -> Seq<R> {
    rows.filter(key_is_not(id))
}

/// The rows whose parent has the key `owner`, in the table's order.
pub open spec fn owned_by<C: Owned>(rows: Seq<C>, owner: i32) -> Seq<C> {
    rows.filter(owner_is(owner))
}

/// The rows that have no parent or whose parent is in `parents`, in the
/// table's order.
pub open spec fn with_owner_in<C: Owned, P: Record>(children: Seq<C>, parents: Seq<P>) -> Seq<C> {
    children.filter(owner_among(parents))
}

/// The table with `row` in the place of the row that has its key.
pub open spec fn replaced<R: Record>(rows: Seq<R>, row: R) -> Seq<R> {
    Seq::new(
        rows.len(),
        |i: int|
            if rows[i].key() == row.key() {
                row
            } else {
                rows[i]
            },
    )
}

/// In a table without double keys, the row at a position is the row found by
/// its key.
pub proof fn lemma_find_at<R: Record>(rows: Seq<R>, i: int)
    requires
        distinct_keys(rows),
        0 <= i < rows.len(),
    ensures
        find(rows, rows[i].key()) == Some(rows[i]),
{
    let id = rows[i].key();
    let j = choose|j: int| 0 <= j < rows.len() && (#[trigger] rows[j]).key() == id;
    assert(j == i);
}

/// Filtering one more row either appends it or changes nothing.
pub proof fn lemma_filter_step<A>(s: Seq<A>, pred: spec_fn(A) -> bool, i: int)
    requires
        0 <= i < s.len(),
    ensures
        s.take(i + 1).filter(pred) == if pred(s[i]) {
            s.take(i).filter(pred).push(s[i])
        } else {
            s.take(i).filter(pred)
        },
{
    reveal(Seq::filter);
    assert(s.take(i + 1).drop_last() == s.take(i));
}

/// What a filter keeps is what the sequence holds and the predicate picks.
pub proof fn lemma_filter_contains<A>(s: Seq<A>, pred: spec_fn(A) -> bool)
    ensures
        forall|x: A| #[trigger] s.filter(pred).contains(x) <==> s.contains(x) && pred(x),
    decreases s.len(),
{
    reveal(Seq::filter);
    if s.len() > 0 {
        let front = s.drop_last();
        let last = s.last();
        lemma_filter_contains(front, pred);
        let kept = s.filter(pred);
        let before = front.filter(pred);
        assert(kept == if pred(last) {
            before.push(last)
        } else {
            before
        });
        assert forall|x: A| #[trigger] kept.contains(x) <==> s.contains(x) && pred(x) by {
            if kept.contains(x) {
                let k = choose|k: int| 0 <= k < kept.len() && kept[k] == x;
                if pred(last) && k == kept.len() - 1 {
                    assert(s[s.len() - 1] == x);
                } else {
                    assert(before[k] == x);
                    assert(before.contains(x));
                    let j = choose|j: int| 0 <= j < front.len() && front[j] == x;
                    assert(s[j] == x);
                }
            }
            if s.contains(x) && pred(x) {
                let j = choose|j: int| 0 <= j < s.len() && s[j] == x;
                if j == s.len() - 1 {
                    assert(kept[kept.len() - 1] == x);
                } else {
                    assert(front[j] == x);
                    assert(front.contains(x));
                    assert(before.contains(x));
                    let k = choose|k: int| 0 <= k < before.len() && before[k] == x;
                    assert(kept[k] == x);
                }
            }
        }
    }
}

/// A filter that every row passes changes nothing.
pub proof fn lemma_filter_all<A>(s: Seq<A>, pred: spec_fn(A) -> bool)
    requires
        forall|i: int| 0 <= i < s.len() ==> pred(#[trigger] s[i]),
    ensures
        s.filter(pred) == s,
    decreases s.len(),
{
    reveal(Seq::filter);
    if s.len() > 0 {
        let front = s.drop_last();
        assert forall|i: int| 0 <= i < front.len() implies pred(#[trigger] front[i]) by {
            assert(front[i] == s[i]);
        }
        lemma_filter_all(front, pred);
        assert(front.push(s.last()) == s);
    }
}

/// What is left of a keyed table after a filter is a keyed table.
pub proof fn lemma_filter_keyed<R: Record>(rows: Seq<R>, pred: spec_fn(R) -> bool, next: i32)
    requires
        keyed(rows, next),
    ensures
        keyed(rows.filter(pred), next),
    decreases rows.len(),
{
    reveal(Seq::filter);
    if rows.len() > 0 {
        let front = rows.drop_last();
        let last = rows.last();
        assert forall|i: int, j: int| 0 <= i < j < front.len() implies (#[trigger] front[i]).key()
            != (#[trigger] front[j]).key() by {
            assert(front[i] == rows[i] && front[j] == rows[j]);
        }
        assert forall|i: int| 0 <= i < front.len() implies 1 <= (#[trigger] front[i]).key()
            < next by {
            assert(front[i] == rows[i]);
        }
        lemma_filter_keyed(front, pred, next);
        lemma_filter_contains(front, pred);
        let kept = rows.filter(pred);
        let before = front.filter(pred);
        if pred(last) {
            assert forall|i: int, j: int| 0 <= i < j < kept.len() implies (#[trigger] kept[i]).key()
                != (#[trigger] kept[j]).key() by {
                if j == kept.len() - 1 {
                    assert(before[i] == kept[i]);
                    assert(before.contains(kept[i]));
                    let k = choose|k: int| 0 <= k < front.len() && front[k] == kept[i];
                    assert(rows[k] == kept[i]);
                    assert(rows[rows.len() - 1] == kept[j]);
                } else {
                    assert(before[i] == kept[i] && before[j] == kept[j]);
                }
            }
            assert forall|i: int| 0 <= i < kept.len() implies 1 <= (#[trigger] kept[i]).key()
                < next by {
                if i == kept.len() - 1 {
                    assert(rows[rows.len() - 1] == kept[i]);
                } else {
                    assert(before[i] == kept[i]);
                }
            }
        }
    }
}

/// A table has a key after a filter exactly if a row with that key passes.
pub proof fn lemma_filter_has_key<R: Record>(rows: Seq<R>, pred: spec_fn(R) -> bool, id: i32)
    ensures
        has_key(rows.filter(pred), id) <==> exists|i: int|
            0 <= i < rows.len() && (#[trigger] rows[i]).key() == id && pred(rows[i]),
{
    lemma_filter_contains(rows, pred);
    let kept = rows.filter(pred);
    if has_key(kept, id) {
        let k = choose|k: int| 0 <= k < kept.len() && (#[trigger] kept[k]).key() == id;
        assert(kept.contains(kept[k]));
        let i = choose|i: int| 0 <= i < rows.len() && rows[i] == kept[k];
        assert(rows[i].key() == id && pred(rows[i]));
    }
    if exists|i: int| 0 <= i < rows.len() && (#[trigger] rows[i]).key() == id && pred(rows[i]) {
        let i = choose|i: int|
            0 <= i < rows.len() && (#[trigger] rows[i]).key() == id && pred(rows[i]);
        assert(rows.contains(rows[i]));
        assert(kept.contains(rows[i]));
        let k = choose|k: int| 0 <= k < kept.len() && kept[k] == rows[i];
        assert(kept[k].key() == id);
    }
}

/// In a table without double keys, a key is left after a filter exactly if
/// the row that it finds passes.
pub proof fn lemma_filter_find<R: Record>(rows: Seq<R>, pred: spec_fn(R) -> bool, id: i32)
    requires
        distinct_keys(rows),
    ensures
        has_key(rows.filter(pred), id) <==> (find(rows, id) matches Some(row) && pred(row)),
        find(rows, id) matches Some(row) ==> row.key() == id && rows.contains(row),
{
    lemma_filter_has_key(rows, pred, id);
    if has_key(rows, id) {
        let at = choose|i: int| 0 <= i < rows.len() && (#[trigger] rows[i]).key() == id;
        lemma_find_at(rows, at);
        if exists|i: int| 0 <= i < rows.len() && (#[trigger] rows[i]).key() == id && pred(rows[i]) {
            let i = choose|i: int|
                0 <= i < rows.len() && (#[trigger] rows[i]).key() == id && pred(rows[i]);
            lemma_find_at(rows, i);
        }
    }
}

/// A child is kept for its parents exactly if it was there and has no parent,
/// or the parent that it names is among those that `pred` has left.
pub proof fn lemma_kept_children<C: Owned, P: Record>(
    children: Seq<C>,
    parents: Seq<P>,
    pred: spec_fn(P) -> bool,
)
    requires
        distinct_keys(parents),
    ensures
        forall|c: C| #[trigger]
            with_owner_in(children, parents.filter(pred)).contains(c) <==> children.contains(c) && (
            c.owner() matches Some(id) ==> (find(parents, id) matches Some(p) && pred(p))),
{
    let left = parents.filter(pred);
    lemma_filter_contains(children, owner_among::<C, P>(left));
    assert forall|c: C| #[trigger]
        with_owner_in(children, left).contains(c) <==> children.contains(c) && (
        c.owner() matches Some(id) ==> (find(parents, id) matches Some(p) && pred(p))) by {
        if let Some(id) = c.owner() {
            lemma_filter_find(parents, pred, id);
        }
    }
}

/// Children that a filter keeps still name parents in `parents`.
pub proof fn lemma_filter_owners<C: Owned, P: Record>(
    children: Seq<C>,
    pred: spec_fn(C) -> bool,
    parents: Seq<P>,
)
    requires
        owners_in(children, parents),
    ensures
        owners_in(children.filter(pred), parents),
{
    lemma_filter_contains(children, pred);
    let kept = children.filter(pred);
    assert forall|i: int| 0 <= i < kept.len() implies owner_in(#[trigger] kept[i], parents) by {
        assert(kept.contains(kept[i]));
        let j = choose|j: int| 0 <= j < children.len() && children[j] == kept[i];
        assert(owner_in(children[j], parents));
    }
}

/// The children kept for their parents name parents in `parents`.
pub proof fn lemma_with_owner_in<C: Owned, P: Record>(children: Seq<C>, parents: Seq<P>)
    ensures
        owners_in(with_owner_in(children, parents), parents),
{
    lemma_filter_contains(children, owner_among::<C, P>(parents));
    let kept = with_owner_in(children, parents);
    assert forall|i: int| 0 <= i < kept.len() implies owner_in(#[trigger] kept[i], parents) by {
        assert(kept.contains(kept[i]));
    }
}

/// A row with the next key can join a keyed table.
pub proof fn lemma_push_keyed<R: Record>(rows: Seq<R>, row: R, next: i32)
    requires
        keyed(rows, next),
        row.key() == next,
        next < i32::MAX,
    ensures
        keyed(rows.push(row), (next + 1) as i32),
{
    let more = rows.push(row);
    assert forall|i: int, j: int| 0 <= i < j < more.len() implies (#[trigger] more[i]).key() != (
    #[trigger] more[j]).key() by {
        assert(more[i] == rows[i]);
        if j < rows.len() {
            assert(more[j] == rows[j]);
        }
    }
    assert forall|i: int| 0 <= i < more.len() implies 1 <= (#[trigger] more[i]).key() < next
        + 1 by {
        if i < rows.len() {
            assert(more[i] == rows[i]);
        }
    }
}

/// A table keeps its keys when a row joins.
pub proof fn lemma_push_has_key<R: Record>(rows: Seq<R>, row: R, id: i32)
    ensures
        has_key(rows.push(row), id) <==> has_key(rows, id) || row.key() == id,
{
    let more = rows.push(row);
    if has_key(rows, id) {
        let i = choose|i: int| 0 <= i < rows.len() && (#[trigger] rows[i]).key() == id;
        assert(more[i].key() == id);
    }
    if row.key() == id {
        assert(more[rows.len() as int].key() == id);
    }
    if has_key(more, id) {
        let i = choose|i: int| 0 <= i < more.len() && (#[trigger] more[i]).key() == id;
        if i < rows.len() {
            assert(rows[i].key() == id);
        }
    }
}

/// A child whose parent is stored, or that has none, can join the children.
pub proof fn lemma_push_child<C: Owned, P: Record>(children: Seq<C>, child: C, parents: Seq<P>)
    requires
        owners_in(children, parents),
        owner_in(child, parents),
    ensures
        owners_in(children.push(child), parents),
{
    let more = children.push(child);
    assert forall|i: int| 0 <= i < more.len() implies owner_in(#[trigger] more[i], parents) by {
        if i < children.len() {
            assert(more[i] == children[i]);
        }
    }
}

/// A new parent orphans no child.
pub proof fn lemma_push_parent<C: Owned, P: Record>(children: Seq<C>, parents: Seq<P>, parent: P)
    requires
        owners_in(children, parents),
    ensures
        owners_in(children, parents.push(parent)),
{
    assert forall|i: int| 0 <= i < children.len() implies owner_in(
        #[trigger] children[i],
        parents.push(parent),
    ) by {
        if let Some(id) = children[i].owner() {
            lemma_push_has_key(parents, parent, id);
        }
    }
}

/// Replacing a row changes no key.
pub proof fn lemma_replaced_has_key<R: Record>(rows: Seq<R>, row: R, id: i32)
    ensures
        has_key(replaced(rows, row), id) <==> has_key(rows, id),
{
    let after = replaced(rows, row);
    if has_key(rows, id) {
        let i = choose|i: int| 0 <= i < rows.len() && (#[trigger] rows[i]).key() == id;
        assert(after[i].key() == id);
    }
    if has_key(after, id) {
        let i = choose|i: int| 0 <= i < after.len() && (#[trigger] after[i]).key() == id;
        assert(rows[i].key() == id);
    }
}

/// A keyed table stays keyed when a row is replaced.
pub proof fn lemma_replaced_keyed<R: Record>(rows: Seq<R>, row: R, next: i32)
    requires
        keyed(rows, next),
    ensures
        keyed(replaced(rows, row), next),
{
    let after = replaced(rows, row);
    assert forall|i: int, j: int| 0 <= i < j < after.len() implies (#[trigger] after[i]).key() != (
    #[trigger] after[j]).key() by {
        assert(after[i].key() == rows[i].key());
        assert(after[j].key() == rows[j].key());
    }
    assert forall|i: int| 0 <= i < after.len() implies 1 <= (#[trigger] after[i]).key()
        < next by {
        assert(after[i].key() == rows[i].key());
    }
}

/// In a table without double keys, the replaced row is the one found by its key,
/// and every other key finds what it found before.
pub proof fn lemma_replaced_find<R: Record>(rows: Seq<R>, row: R, id: i32)
    requires
        distinct_keys(rows),
        has_key(rows, row.key()),
    ensures
        find(replaced(rows, row), id) == if id == row.key() {
            Some(row)
        } else {
            find(rows, id)
        },
{
    let after = replaced(rows, row);
    lemma_replaced_has_key(rows, row, id);
    assert forall|i: int, j: int| 0 <= i < j < after.len() implies (#[trigger] after[i]).key() != (
    #[trigger] after[j]).key() by {
        assert(after[i].key() == rows[i].key());
        assert(after[j].key() == rows[j].key());
    }
    if has_key(rows, id) {
        let i = choose|i: int| 0 <= i < rows.len() && (#[trigger] rows[i]).key() == id;
        assert(after[i].key() == id);
        lemma_find_at(after, i);
        lemma_find_at(rows, i);
    }
}

/// The children stay with their parents when a child is replaced by one whose
/// parent is stored, or that has none.
pub proof fn lemma_replaced_child<C: Owned, P: Record>(children: Seq<C>, child: C, parents: Seq<P>)
    requires
        owners_in(children, parents),
        owner_in(child, parents),
    ensures
        owners_in(replaced(children, child), parents),
{
    let after = replaced(children, child);
    assert forall|i: int| 0 <= i < after.len() implies owner_in(#[trigger] after[i], parents) by {
        assert(after[i] == child || after[i] == children[i]);
    }
}

/// The children stay with their parents when a parent is replaced.
pub proof fn lemma_replaced_parent<C: Owned, P: Record>(
    children: Seq<C>,
    parents: Seq<P>,
    parent: P,
)
    requires
        owners_in(children, parents),
    ensures
        owners_in(children, replaced(parents, parent)),
{
    assert forall|i: int| 0 <= i < children.len() implies owner_in(
        #[trigger] children[i],
        replaced(parents, parent),
    ) by {
        if let Some(id) = children[i].owner() {
            lemma_replaced_has_key(parents, parent, id);
        }
    }
}

/// The position of the first row with the key `id`.
pub fn position_of<R: Record>(rows: &Vec<R>, id: i32) -> (r: Option<usize>)
    ensures
        match r {
            Some(i) => i < rows@.len() && rows@[i as int].key() == id && forall|j: int|
                0 <= j < i ==> (#[trigger] rows@[j]).key() != id,
            None => !has_key(rows@, id),
        },
{
    let mut i: usize = 0;
    while i < rows.len()
        invariant
            i <= rows@.len(),
            forall|j: int| 0 <= j < i ==> (#[trigger] rows@[j]).key() != id,
        decreases rows@.len() - i,
    {
        if rows[i].id() == id {
            return Some(i);
        }
        i += 1;
    }
    None
}

pub fn contains_key<R: Record>(rows: &Vec<R>, id: i32) -> (r: bool)
    ensures
        r == has_key(rows@, id),
{
    position_of(rows, id).is_some()
}

/// A copy of the first row with the key `id`: in a table without double keys,
/// of the row that the key finds.
pub fn fetch<R: Record>(rows: &Vec<R>, id: i32) -> (r: Option<R>)
    ensures
        r is Some <==> has_key(rows@, id),
        r matches Some(row) ==> row.key() == id && rows@.contains(row),
        distinct_keys(rows@) ==> r == find(rows@, id),
{
    match position_of(rows, id) {
        Some(i) => {
            proof {
                if distinct_keys(rows@) {
                    lemma_find_at(rows@, i as int);
                }
            }
            Some(rows[i].duplicate())
        },
        None => None,
    }
}

/// Puts `row` in the place of every row that has its key.
pub fn replace_row<R: Record>(rows: Vec<R>, row: R) -> (out: Vec<R>)
    ensures
        out@ == replaced(rows@, row),
{
    let mut out = rows;
    let ghost before = out@;
    let mut i: usize = 0;
    while i < out.len()
        invariant
            i <= out@.len(),
            out@.len() == before.len(),
            forall|j: int| 0 <= j < i ==> #[trigger] out@[j] == replaced(before, row)[j],
            forall|j: int| i <= j < out@.len() ==> #[trigger] out@[j] == before[j],
        decreases out@.len() - i,
    {
        if out[i].id() == row.id() {
            out.set(i, row.duplicate());
        }
        i += 1;
    }
    assert(out@ =~= replaced(before, row));
    out
}

/// A copy of the whole table.
pub fn copy_rows<R: Record>(rows: &Vec<R>) -> (out: Vec<R>)
    ensures
        out@ == rows@,
{
    let mut out: Vec<R> = Vec::new();
    let mut i: usize = 0;
    while i < rows.len()
        invariant
            i <= rows@.len(),
            out@ == rows@.take(i as int),
        decreases rows@.len() - i,
    {
        out.push(rows[i].duplicate());
        assert(rows@.take(i + 1) == rows@.take(i as int).push(rows@[i as int]));
        i += 1;
    }
    assert(rows@.take(rows@.len() as int) == rows@);
    out
}

/// A copy of the table without the row that has the key `id`.
pub fn remove_key<R: Record>(rows: &Vec<R>, id: i32) -> (out: Vec<R>)
    ensures
        out@ == without_key(rows@, id),
{
    let mut out: Vec<R> = Vec::new();
    let mut i: usize = 0;
    assert(rows@.take(0).filter(key_is_not::<R>(id)) == Seq::<R>::empty()) by {
        reveal(Seq::filter);
    }
    while i < rows.len()
        invariant
            i <= rows@.len(),
            out@ == without_key(rows@.take(i as int), id),
        decreases rows@.len() - i,
    {
        proof {
            lemma_filter_step(rows@, key_is_not::<R>(id), i as int);
        }
        if rows[i].id() != id {
            out.push(rows[i].duplicate());
        }
        i += 1;
    }
    assert(rows@.take(rows@.len() as int) == rows@);
    out
}

/// Copies of the rows whose parent has the key `owner`.
pub fn select_owned<C: Owned>(rows: &Vec<C>, owner: i32) -> (out: Vec<C>)
    ensures
        out@ == owned_by(rows@, owner),
{
    let mut out: Vec<C> = Vec::new();
    let mut i: usize = 0;
    assert(rows@.take(0).filter(owner_is::<C>(owner)) == Seq::<C>::empty()) by {
        reveal(Seq::filter);
    }
    while i < rows.len()
        invariant
            i <= rows@.len(),
            out@ == owned_by(rows@.take(i as int), owner),
        decreases rows@.len() - i,
    {
        proof {
            lemma_filter_step(rows@, owner_is::<C>(owner), i as int);
        }
        let owned = match rows[i].owner_id() {
            Some(parent) => parent == owner,
            None => false,
        };
        if owned {
            out.push(rows[i].duplicate());
        }
        i += 1;
    }
    assert(rows@.take(rows@.len() as int) == rows@);
    out
}

/// Copies of the rows that have no parent or whose parent is in `parents`.
pub fn keep_owned<C: Owned, P: Record>(children: &Vec<C>, parents: &Vec<P>) -> (out: Vec<C>)
    ensures
        out@ == with_owner_in(children@, parents@),
{
    let mut out: Vec<C> = Vec::new();
    let mut i: usize = 0;
    assert(children@.take(0).filter(owner_among::<C, P>(parents@)) == Seq::<C>::empty()) by {
        reveal(Seq::filter);
    }
    while i < children.len()
        invariant
            i <= children@.len(),
            out@ == with_owner_in(children@.take(i as int), parents@),
        decreases children@.len() - i,
    {
        proof {
            lemma_filter_step(children@, owner_among::<C, P>(parents@), i as int);
        }
        let kept = match children[i].owner_id() {
            Some(parent) => contains_key(parents, parent),
            None => true,
        };
        if kept {
            out.push(children[i].duplicate());
        }
        i += 1;
    }
    assert(children@.take(children@.len() as int) == children@);
    out
}

} // verus!
