//! The order in which a query hands out rows: ascending by a sort key, rows
//! with the same key in the order in which they were written.

use crate::models::user::UserView;
use crate::models::workflow_step::WorkflowStepView;
use crate::models::workflow_template::WorkflowTemplateView;
use crate::text::{lemma_text_le_total, lemma_text_le_transitive, text_le};
use vstd::prelude::*;

verus! {

/// Whether of any two rows one may stand before the other.
pub open spec fn total<T>(le: spec_fn(T, T) -> bool) -> bool {
    forall|a: T, b: T| #[trigger] le(a, b) || le(b, a)
}

/// Whether a row that may stand before a second may stand before every row
/// that the second may stand before.
pub open spec fn transitive<T>(le: spec_fn(T, T) -> bool) -> bool {
    forall|a: T, b: T, c: T| #[trigger] le(a, b) && #[trigger] le(b, c) ==> le(a, c)
}

/// Whether every row may stand before all rows behind it.
pub open spec fn ascending<T>(rows: Seq<T>, le: spec_fn(T, T) -> bool) -> bool {
    forall|i: int, j: int| 0 <= i < j < rows.len() ==> le(rows[i], rows[j])
}

/// Where `row` goes among `sorted`: behind the last row that may stand
/// before it.
pub open spec fn slot<T>(sorted: Seq<T>, row: T, le: spec_fn(T, T) -> bool) -> int
    decreases sorted.len(),
{
    if sorted.len() == 0 {
        0
    } else if le(sorted.last(), row) {
        sorted.len() as int
    } else {
        slot(sorted.drop_last(), row, le)
    }
}

/// `sorted` with `row` put in its place.
pub open spec fn placed<T>(sorted: Seq<T>, row: T, le: spec_fn(T, T) -> bool) -> Seq<T> {
    sorted.insert(slot(sorted, row, le), row)
}

/// The rows in order: each put in its place among those written before it.
pub open spec fn in_order<T>(rows: Seq<T>, le: spec_fn(T, T) -> bool) -> Seq<T>
    decreases rows.len(),
{
    if rows.len() == 0 {
        rows
    } else {
        placed(in_order(rows.drop_last(), le), rows.last(), le)
    }
}

/// Steps by their sort key.
pub open spec fn by_step_order() -> spec_fn(WorkflowStepView, WorkflowStepView) -> bool {
    |a: WorkflowStepView, b: WorkflowStepView| a.step_order <= b.step_order
}

/// Users by their email.
pub open spec fn by_email() -> spec_fn(UserView, UserView) -> bool {
    |a: UserView, b: UserView| text_le(a.email, b.email)
}

/// Templates by their name.
pub open spec fn by_name() -> spec_fn(WorkflowTemplateView, WorkflowTemplateView) -> bool {
    |a: WorkflowTemplateView, b: WorkflowTemplateView| text_le(a.name, b.name)
}

/// The steps `rows` in step order.
pub open spec fn in_step_order(rows: Seq<WorkflowStepView>) -> Seq<WorkflowStepView> {
    in_order(rows, by_step_order())
}

/// The three orders of this module relate any two rows, and carry over.
pub proof fn lemma_orders()
    ensures
        total(by_step_order()),
        transitive(by_step_order()),
        total(by_email()),
        transitive(by_email()),
        total(by_name()),
        transitive(by_name()),
{
    assert forall|a: UserView, b: UserView| #[trigger]
        by_email()(a, b) || by_email()(b, a) by {
        lemma_text_le_total(a.email, b.email);
    }
    assert forall|a: UserView, b: UserView, c: UserView| #[trigger]
        by_email()(a, b) && #[trigger] by_email()(b, c) implies by_email()(a, c) by {
        lemma_text_le_transitive(a.email, b.email, c.email);
    }
    assert forall|a: WorkflowTemplateView, b: WorkflowTemplateView| #[trigger]
        by_name()(a, b) || by_name()(b, a) by {
        lemma_text_le_total(a.name, b.name);
    }
    assert forall|a: WorkflowTemplateView, b: WorkflowTemplateView, c: WorkflowTemplateView|
        #[trigger] by_name()(a, b) && #[trigger] by_name()(b, c) implies by_name()(a, c) by {
        lemma_text_le_transitive(a.name, b.name, c.name);
    }
}

/// The place of a row lies within the sequence; no row from there on may
/// stand before it, and among ascending rows every row before it may.
pub proof fn lemma_slot<T>(sorted: Seq<T>, row: T, le: spec_fn(T, T) -> bool)
    ensures
        0 <= slot(sorted, row, le) <= sorted.len(),
        forall|i: int| slot(sorted, row, le) <= i < sorted.len() ==> !le(sorted[i], row),
        ascending(sorted, le) && transitive(le) ==> forall|i: int|
            0 <= i < slot(sorted, row, le) ==> le(sorted[i], row),
    decreases sorted.len(),
{
    if sorted.len() > 0 {
        let front = sorted.drop_last();
        if le(sorted.last(), row) {
            if ascending(sorted, le) && transitive(le) {
                assert forall|i: int| 0 <= i < sorted.len() implies le(sorted[i], row) by {
                    if i < sorted.len() - 1 {
                        assert(le(sorted[i], sorted.last()));
                    }
                }
            }
        } else {
            lemma_slot(front, row, le);
            assert forall|i: int| slot(sorted, row, le) <= i < sorted.len() implies !le(
                sorted[i],
                row,
            ) by {
                if i < front.len() {
                    assert(front[i] == sorted[i]);
                }
            }
            if ascending(sorted, le) && transitive(le) {
                assert forall|i: int, j: int| 0 <= i < j < front.len() implies le(
                    front[i],
                    front[j],
                ) by {
                    assert(front[i] == sorted[i] && front[j] == sorted[j]);
                }
                assert forall|i: int| 0 <= i < slot(sorted, row, le) implies le(
                    sorted[i],
                    row,
                ) by {
                    assert(front[i] == sorted[i]);
                }
            }
        }
    }
}

/// Putting a row in its place among ascending rows leaves them ascending,
/// and adds that row and nothing else.
pub proof fn lemma_placed<T>(sorted: Seq<T>, row: T, le: spec_fn(T, T) -> bool)
    requires
        total(le),
        transitive(le),
        ascending(sorted, le),
    ensures
        ascending(placed(sorted, row, le), le),
        placed(sorted, row, le).len() == sorted.len() + 1,
        placed(sorted, row, le).to_multiset() == sorted.to_multiset().insert(row),
{
    let at = slot(sorted, row, le);
    lemma_slot(sorted, row, le);
    sorted.insert_ensures(at, row);
    vstd::seq_lib::to_multiset_insert(sorted, at, row);
    let after = placed(sorted, row, le);
    assert forall|i: int, j: int| 0 <= i < j < after.len() implies le(after[i], after[j]) by {
        if i < at {
            assert(after[i] == sorted[i]);
        } else if i > at {
            assert(after[i] == sorted[i - 1]);
        }
        if j < at {
            assert(after[j] == sorted[j]);
        } else if j > at {
            assert(after[j] == sorted[j - 1]);
            assert(!le(sorted[j - 1], row));
            assert(le(sorted[j - 1], row) || le(row, sorted[j - 1]));
        }
    }
}

/// Rows in order are ascending, and they are the same rows, each as often as
/// before.
pub proof fn lemma_in_order<T>(rows: Seq<T>, le: spec_fn(T, T) -> bool)
    requires
        total(le),
        transitive(le),
    ensures
        ascending(in_order(rows, le), le),
        in_order(rows, le).len() == rows.len(),
        in_order(rows, le).to_multiset() == rows.to_multiset(),
    decreases rows.len(),
{
    if rows.len() > 0 {
        lemma_in_order(rows.drop_last(), le);
        lemma_placed(in_order(rows.drop_last(), le), rows.last(), le);
        assert(rows.drop_last().push(rows.last()) =~= rows);
        vstd::seq_lib::to_multiset_build(rows.drop_last(), rows.last());
    }
}

/// Rows that are ascending already are in order as they stand: rows with the
/// same key are never exchanged.
pub proof fn lemma_in_order_keeps<T>(rows: Seq<T>, le: spec_fn(T, T) -> bool)
    requires
        ascending(rows, le),
    ensures
        in_order(rows, le) == rows,
    decreases rows.len(),
{
    if rows.len() > 0 {
        let front = rows.drop_last();
        assert forall|i: int, j: int| 0 <= i < j < front.len() implies le(front[i], front[j]) by {
            assert(front[i] == rows[i] && front[j] == rows[j]);
        }
        lemma_in_order_keeps(front, le);
        if front.len() > 0 {
            assert(front.last() == rows[front.len() - 1]);
            assert(le(front.last(), rows.last()));
        }
        assert(slot(front, rows.last(), le) == front.len());
        assert(placed(front, rows.last(), le) =~= rows);
    }
}

} // verus!
