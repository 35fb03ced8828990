//! Laws of column bindings, state flags, the row stream and prepared handles.

use vstd::prelude::*;

use crate::api::odbc_types::{SqlUSmallInt, SQL_BIND_BY_COLUMN};
use crate::handles::stmt::{ColumnBinding, StmtStateView};

verus! {

/// Filtering keeps what satisfies `keep`.
proof fn lemma_filter_keeps(
    s: Seq<ColumnBinding>,
    keep: spec_fn(ColumnBinding) -> bool,
    b: ColumnBinding,
)
    ensures
        s.filter(keep).contains(b) <==> s.contains(b) && keep(b),
{
    let kept = s.filter(keep);
    if kept.contains(b) {
        s.lemma_filter_contains_rev(keep, b);
        let i = choose|i: int| 0 <= i < kept.len() && kept[i] == b;
        s.lemma_filter_pred(keep, i);
    }
    if s.contains(b) && keep(b) {
        let i = choose|i: int| 0 <= i < s.len() && s[i] == b;
        s.lemma_filter_contains(keep, i);
    }
}

/// Filtering keeps bindings ordered.
proof fn lemma_filter_ordered(s: Seq<ColumnBinding>, keep: spec_fn(ColumnBinding) -> bool)
    requires
        crate::handles::stmt::ordered(s),
    ensures
        crate::handles::stmt::ordered(s.filter(keep)),
    decreases s.len(),
{
    reveal(Seq::filter);
    if s.len() > 0 {
        let rest = s.drop_last();
        let kept = rest.filter(keep);
        lemma_filter_ordered(rest, keep);
        assert forall|i: int| 0 <= i < kept.len() implies (#[trigger] kept[i]).column_number
            < s.last().column_number by {
            rest.lemma_filter_contains_rev(keep, kept[i]);
            let j = choose|j: int| 0 <= j < rest.len() && rest[j] == kept[i];
            assert(s[j] == kept[i]);
        }
    }
}

/// Binding a column keeps the bindings ordered, one per column; the column has
/// the new binding and no other, and every other column the one it had.
pub proof fn law_bind_replaces_one_column(
    bindings: Seq<ColumnBinding>,
    new: ColumnBinding,
    b: ColumnBinding,
)
    requires
        crate::handles::stmt::ordered(bindings),
    ensures
        crate::handles::stmt::ordered(crate::handles::stmt::rebound(bindings, new)),
        crate::handles::stmt::rebound(bindings, new).contains(b) <==> b == new || (
        bindings.contains(b) && b.column_number != new.column_number),
{
    let column = new.column_number;
    let before = crate::handles::stmt::bound_before(bindings, column);
    let after = crate::handles::stmt::bound_after(bindings, column);
    let lower = |x: ColumnBinding| x.column_number < column;
    let higher = |x: ColumnBinding| x.column_number > column;
    lemma_filter_ordered(bindings, lower);
    lemma_filter_ordered(bindings, higher);
    lemma_filter_keeps(bindings, lower, b);
    lemma_filter_keeps(bindings, higher, b);
    let all = crate::handles::stmt::rebound(bindings, new);
    assert(all =~= before.push(new) + after);
    assert forall|i: int| 0 <= i < before.len() implies (#[trigger] before[i]).column_number
        < column by {
        bindings.lemma_filter_pred(lower, i);
    }
    assert forall|i: int| 0 <= i < after.len() implies (#[trigger] after[i]).column_number
        > column by {
        bindings.lemma_filter_pred(higher, i);
    }
    assert(all[before.len() as int] == new);
    if before.contains(b) {
        let i = choose|i: int| 0 <= i < before.len() && before[i] == b;
        assert(all[i] == b);
    }
    if after.contains(b) {
        let i = choose|i: int| 0 <= i < after.len() && after[i] == b;
        assert(all[before.len() + 1 + i] == b);
    }
    if all.contains(b) {
        let i = choose|i: int| 0 <= i < all.len() && all[i] == b;
        if i < before.len() {
            assert(before[i] == b);
        } else if i > before.len() {
            assert(after[i - before.len() - 1] == b);
        }
    }
}

/// Unbinding a column keeps the bindings ordered, and takes away the column's
/// binding and no other.
pub proof fn law_unbind_removes_one_column(
    bindings: Seq<ColumnBinding>,
    column: SqlUSmallInt,
    b: ColumnBinding,
)
    requires
        crate::handles::stmt::ordered(bindings),
    ensures
        crate::handles::stmt::ordered(crate::handles::stmt::unbound(bindings, column)),
        crate::handles::stmt::unbound(bindings, column).contains(b) <==> bindings.contains(b)
            && b.column_number != column,
{
    let other = |x: ColumnBinding| x.column_number != column;
    lemma_filter_ordered(bindings, other);
    lemma_filter_keeps(bindings, other, b);
}

/// Ordered bindings are determined by which bindings there are.
pub proof fn law_bindings_have_one_order(a: Seq<ColumnBinding>, b: Seq<ColumnBinding>)
    requires
        crate::handles::stmt::ordered(a),
        crate::handles::stmt::ordered(b),
        forall|x: ColumnBinding| #[trigger] a.contains(x) <==> b.contains(x),
    ensures
        a == b,
    decreases a.len(),
{
    if a.len() == 0 {
        if b.len() > 0 {
            assert(b.contains(b[0]));
            assert(a.contains(b[0]));
        }
        assert(a =~= b);
    } else {
        assert(a.contains(a.last()));
        assert(b.contains(a.last()));
        assert(b.len() > 0);
        assert(b.contains(b.last()));
        assert(a.contains(b.last()));
        assert(a.last() == b.last());
        let last = a.last();
        assert forall|x: ColumnBinding| #[trigger]
            a.drop_last().contains(x) <==> b.drop_last().contains(x) by {
            lemma_without_last(a, x);
            lemma_without_last(b, x);
            assert(a.contains(x) <==> b.contains(x));
        }
        law_bindings_have_one_order(a.drop_last(), b.drop_last());
        assert(a =~= a.drop_last().push(last));
        assert(b =~= b.drop_last().push(last));
    }
}

/// Ordered bindings without the last are all the others.
proof fn lemma_without_last(s: Seq<ColumnBinding>, x: ColumnBinding)
    requires
        crate::handles::stmt::ordered(s),
        s.len() > 0,
    ensures
        s.drop_last().contains(x) <==> s.contains(x) && x != s.last(),
{
    if s.drop_last().contains(x) {
        let i = choose|i: int| 0 <= i < s.drop_last().len() && s.drop_last()[i] == x;
        assert(s[i] == x);
    }
    if s.contains(x) && x != s.last() {
        let i = choose|i: int| 0 <= i < s.len() && s[i] == x;
        assert(s.drop_last()[i] == x);
    }
}

/// Rebinding a column leaves nothing of its previous binding.
pub proof fn law_rebinding_replaces(
    bindings: Seq<ColumnBinding>,
    first: ColumnBinding,
    second: ColumnBinding,
)
    requires
        crate::handles::stmt::ordered(bindings),
        first.column_number == second.column_number,
    ensures
        crate::handles::stmt::rebound(crate::handles::stmt::rebound(bindings, first), second)
            == crate::handles::stmt::rebound(bindings, second),
{
    let once = crate::handles::stmt::rebound(bindings, first);
    law_bind_replaces_one_column(bindings, first, first);
    law_bind_replaces_one_column(once, second, second);
    law_bind_replaces_one_column(bindings, second, second);
    assert forall|x: ColumnBinding| #[trigger]
        crate::handles::stmt::rebound(once, second).contains(x)
            <==> crate::handles::stmt::rebound(bindings, second).contains(x) by {
        law_bind_replaces_one_column(bindings, first, x);
        law_bind_replaces_one_column(once, second, x);
        law_bind_replaces_one_column(bindings, second, x);
    }
    law_bindings_have_one_order(
        crate::handles::stmt::rebound(once, second),
        crate::handles::stmt::rebound(bindings, second),
    );
}

/// In which order different columns are bound makes no difference.
pub proof fn law_binding_order_is_irrelevant(
    bindings: Seq<ColumnBinding>,
    p: ColumnBinding,
    q: ColumnBinding,
)
    requires
        crate::handles::stmt::ordered(bindings),
        p.column_number != q.column_number,
    ensures
        crate::handles::stmt::rebound(crate::handles::stmt::rebound(bindings, p), q)
            == crate::handles::stmt::rebound(crate::handles::stmt::rebound(bindings, q), p),
{
    let after_p = crate::handles::stmt::rebound(bindings, p);
    let after_q = crate::handles::stmt::rebound(bindings, q);
    law_bind_replaces_one_column(bindings, p, p);
    law_bind_replaces_one_column(bindings, q, q);
    law_bind_replaces_one_column(after_p, q, q);
    law_bind_replaces_one_column(after_q, p, p);
    assert forall|x: ColumnBinding| #[trigger]
        crate::handles::stmt::rebound(after_p, q).contains(x)
            <==> crate::handles::stmt::rebound(after_q, p).contains(x) by {
        law_bind_replaces_one_column(bindings, p, x);
        law_bind_replaces_one_column(bindings, q, x);
        law_bind_replaces_one_column(after_p, q, x);
        law_bind_replaces_one_column(after_q, p, x);
    }
    law_bindings_have_one_order(
        crate::handles::stmt::rebound(after_p, q),
        crate::handles::stmt::rebound(after_q, p),
    );
}

/// Unbinding a column leaves nothing of having bound it.
pub proof fn law_unbind_undoes_bind(bindings: Seq<ColumnBinding>, new: ColumnBinding)
    requires
        crate::handles::stmt::ordered(bindings),
    ensures
        crate::handles::stmt::unbound(
            crate::handles::stmt::rebound(bindings, new),
            new.column_number,
        ) == crate::handles::stmt::unbound(bindings, new.column_number),
{
    let column = new.column_number;
    let bound = crate::handles::stmt::rebound(bindings, new);
    law_bind_replaces_one_column(bindings, new, new);
    law_unbind_removes_one_column(bound, column, new);
    law_unbind_removes_one_column(bindings, column, new);
    assert forall|x: ColumnBinding| #[trigger]
        crate::handles::stmt::unbound(bound, column).contains(x)
            <==> crate::handles::stmt::unbound(bindings, column).contains(x) by {
        law_bind_replaces_one_column(bindings, new, x);
        law_unbind_removes_one_column(bound, column, x);
        law_unbind_removes_one_column(bindings, column, x);
    }
    law_bindings_have_one_order(
        crate::handles::stmt::unbound(bound, column),
        crate::handles::stmt::unbound(bindings, column),
    );
}

/// Unbinding goes binding by binding, in whatever order they are: each goes or
/// stays by its own column, and those that stay keep their order.
pub proof fn law_unbind_goes_binding_by_binding(
    bindings: Seq<ColumnBinding>,
    b: ColumnBinding,
    column: SqlUSmallInt,
)
    ensures
        crate::handles::stmt::unbound(bindings.push(b), column) == if b.column_number == column {
            crate::handles::stmt::unbound(bindings, column)
        } else {
            crate::handles::stmt::unbound(bindings, column).push(b)
        },
        crate::handles::stmt::unbound(Seq::empty(), column) == Seq::<ColumnBinding>::empty(),
{
    reveal(Seq::filter);
    assert(bindings.push(b).drop_last() =~= bindings);
}

/// Unbinding a column that is not bound does nothing.
pub proof fn law_unbind_of_unbound_column(bindings: Seq<ColumnBinding>, column: SqlUSmallInt)
    requires
        forall|i: int|
            0 <= i < bindings.len() ==> (#[trigger] bindings[i]).column_number != column,
    ensures
        crate::handles::stmt::unbound(bindings, column) == bindings,
    decreases bindings.len(),
{
    reveal(Seq::filter);
    if bindings.len() > 0 {
        law_unbind_of_unbound_column(bindings.drop_last(), column);
        assert(bindings.drop_last().push(bindings.last()) =~= bindings);
    } else {
        assert(crate::handles::stmt::unbound(bindings, column) =~= bindings);
    }
}

/// A flag that was set is set, one that was cleared is not, and flags that a
/// mask does not touch stay as they were.
pub proof fn law_flags(s: StmtStateView, mask: u32, other: u32)
    ensures
        mask != 0 ==> (StmtStateView { state_flags: s.state_flags | mask, ..s }).has_flag(mask),
        !(StmtStateView { state_flags: s.state_flags & !mask, ..s }).has_flag(mask),
        mask & other == 0 ==> (StmtStateView { state_flags: s.state_flags | mask, ..s }).has_flag(
            other,
        ) == s.has_flag(other),
        mask & other == 0 ==> (StmtStateView { state_flags: s.state_flags & !mask, ..s }).has_flag(
            other,
        ) == s.has_flag(other),
{
    let flags = s.state_flags;
    assert(mask != 0 ==> (flags | mask) & mask != 0) by (bit_vector);
    assert((flags & !mask) & mask == 0) by (bit_vector);
    assert(mask & other == 0 ==> (flags | mask) & other == flags & other) by (bit_vector);
    assert(mask & other == 0 ==> (flags & !mask) & other == flags & other) by (bit_vector);
}

/// Beginning a row and leaving it clear the same, and differ in whether the
/// cursor is on a row.
pub proof fn law_row_begins_clean(s: StmtStateView)
    ensures
        ({
            let begun = StmtStateView { row_positioned: true, ..s.off_row() };
            &&& begun.off_row() == s.off_row()
            &&& s.off_row().off_row() == s.off_row()
            &&& begun.row_positioned && !s.off_row().row_positioned
            &&& begun.bindings == s.bindings
        }),
{
}

/// Leaving a row leaves nothing of it: no position, no value read, no stream in
/// progress, nothing read partly. Everything that is not of the row stays.
pub proof fn law_nothing_of_a_row_stays(s: StmtStateView)
    ensures
        ({
            let left = s.off_row();
            &&& !left.row_positioned
            &&& left.last_captured is None
            &&& left.last_variant_base is None
            &&& !left.row_exhausted
            &&& left.active_plp is None
            &&& left.current_row_last_col == 0
            &&& left.partial_text_offset is None
            &&& s == StmtStateView {
                row_positioned: s.row_positioned,
                last_captured: s.last_captured,
                last_variant_base: s.last_variant_base,
                row_exhausted: s.row_exhausted,
                active_plp: s.active_plp,
                current_row_last_col: s.current_row_last_col,
                partial_text_offset: s.partial_text_offset,
                ..left
            }
        }),
{
}

/// What was read of one row does not reach the next: two states that differ in
/// what they read of their rows are the same once they left them.
pub proof fn law_rows_are_left_alike(a: StmtStateView, b: StmtStateView)
    requires
        b == (StmtStateView {
            row_positioned: b.row_positioned,
            last_captured: b.last_captured,
            last_variant_base: b.last_variant_base,
            row_exhausted: b.row_exhausted,
            active_plp: b.active_plp,
            current_row_last_col: b.current_row_last_col,
            partial_text_offset: b.partial_text_offset,
            ..a
        }),
    ensures
        a.off_row() == b.off_row(),
{
}

/// A state is in order exactly when its rowset has a row, its bindings ascend,
/// and no identity waits while another is live.
pub proof fn law_statement_order(s: StmtStateView)
    ensures
        s.wf() <==> {
            &&& s.row_array_size >= 1
            &&& forall|i: int, j: int|
                0 <= i < j < s.bindings.len() ==> (#[trigger] s.bindings[i]).column_number < (
                #[trigger] s.bindings[j]).column_number
            &&& s.prepared matches Some(plan) ==> plan.id is None || s.pending_unprepare is None
        },
{
}

/// Where an identity goes: a live one goes to await release, in place of any
/// that waited, which is reported; without a live one nothing changes and
/// nothing is reported. Nothing but the two places of an identity changes.
pub proof fn law_identities_are_accounted_for(s: StmtStateView)
    ensures
        ({
            let after = s.orphaned();
            &&& s == StmtStateView {
                prepared: s.prepared,
                pending_unprepare: s.pending_unprepare,
                ..after
            }
            &&& s.prepared is None ==> after == s && s.forgotten() is None
            &&& s.prepared matches Some(plan) ==> {
                &&& plan.id is None ==> after == s && s.forgotten() is None
                &&& plan.id is Some ==> {
                    &&& after.pending_unprepare == plan.id
                    &&& s.forgotten() == s.pending_unprepare
                    &&& after.prepared matches Some(kept) && kept.id is None && kept.sql
                        == plan.sql && kept.marker_count == plan.marker_count
                }
            }
        }),
{
}

/// A state has one of the flags of a mask exactly when it has one of either
/// part of it, none of an empty mask, and none at all when it is new.
pub proof fn law_masks_join(s: StmtStateView, a: u32, b: u32)
    ensures
        s.has_flag(a | b) <==> s.has_flag(a) || s.has_flag(b),
        !s.has_flag(0),
        s.has_flag(a) <==> s.state_flags & a != 0,
        !StmtStateView::fresh().has_flag(a),
{
    let flags = s.state_flags;
    assert(flags & (a | b) != 0 <==> flags & a != 0 || flags & b != 0) by (bit_vector);
    assert(flags & 0 == 0) by (bit_vector);
    assert(0u32 & a == 0) by (bit_vector);
}

/// A new statement has nothing: no diagnostics, results, parameters, bindings
/// or descriptors of its own choosing. It fetches one row at a time, bound by
/// column, and no row count is known of it.
pub proof fn law_a_new_statement_is_blank()
    ensures
        ({
            let s = StmtStateView::fresh();
            &&& s.diags.len() == 0
            &&& s.column_metadata.len() == 0
            &&& s.prepared is None
            &&& s.parameter_metadata.len() == 0
            &&& s.bound_params.len() == 0
            &&& s.pending_unprepare is None
            &&& s.off_row() == s
            &&& s.row_count == -1
            &&& s.pending_row_counts.len() == 0
            &&& s.row_array_size == 1
            &&& s.rows_fetched_ptr == 0
            &&& s.row_status_ptr == 0
            &&& s.row_bind_type == SQL_BIND_BY_COLUMN
            &&& s.row_bind_offset_ptr == 0
            &&& s.bindings.len() == 0
            &&& s.active_ard is None
            &&& s.active_apd is None
            &&& s.state_flags == 0
        }),
{
}

/// Once a prepared handle was moved to await release no identity is live, so
/// at most one waits; its SQL stays, and moving it again does nothing. Where no
/// identity waited while another was live, none is forgotten.
pub proof fn law_orphaned_once(s: StmtStateView)
    ensures
        !s.orphaned().materialized(),
        s.orphaned().one_identity(),
        s.orphaned().orphaned() == s.orphaned(),
        s.one_identity() ==> s.forgotten() is None,
        s.prepared is Some <==> s.orphaned().prepared is Some,
        s.prepared matches Some(plan) ==> s.orphaned().prepared matches Some(kept) && kept.sql
            == plan.sql && kept.marker_count == plan.marker_count,
        s.one_identity() ==> (s.orphaned().pending_unprepare == if s.materialized() {
            s.prepared->Some_0.id
        } else {
            s.pending_unprepare
        }),
{
}

/// Every operation on a statement's state keeps it in order.
pub proof fn law_operations_keep_statement_order(
    s: StmtStateView,
    binding: ColumnBinding,
    column: SqlUSmallInt,
    mask: u32,
)
    requires
        s.wf(),
    ensures
        (StmtStateView {
            bindings: crate::handles::stmt::rebound(s.bindings, binding),
            ..s
        }).wf(),
        (StmtStateView {
            bindings: crate::handles::stmt::unbound(s.bindings, column),
            ..s
        }).wf(),
        (StmtStateView { bindings: Seq::empty(), ..s }).wf(),
        (StmtStateView { state_flags: s.state_flags | mask, ..s }).wf(),
        (StmtStateView { state_flags: s.state_flags & !mask, ..s }).wf(),
        s.off_row().wf(),
        (StmtStateView { row_positioned: true, ..s.off_row() }).wf(),
        s.orphaned().wf(),
        StmtStateView::fresh().wf(),
{
    law_bind_replaces_one_column(s.bindings, binding, binding);
    law_unbind_removes_one_column(s.bindings, column, binding);
}

} // verus!
