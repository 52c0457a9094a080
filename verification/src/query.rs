//! The read-only queries: one position by id, and filtered, ordered,
//! paginated enumeration over the seven secondary indexes.

use vstd::prelude::*;

verus! {

use crate::definitions::OtcPosition;
use crate::functions::{
    derefs, get_items, get_multi_index_values, spec_after_cursor, spec_limit, spec_scan,
    spec_scan_pred, take_limit,
};
use crate::msgs::{QueryPositionsFilter, QueryPositionsFilterOrder};
use crate::response::ContractError;
use crate::state::{
    contains_id, executor_key, get_pos, index_key, views_of, OtcPositionIndexer, PositionStore,
};

/// Answers the position stored under `id`, or a not-found error.
pub fn qy_position<'a>(store: &'a PositionStore, id: u64) -> (r: Result<
    &'a OtcPosition,
    ContractError,
>)
    requires
        store.wf(),
    ensures
        match r {
            Ok(p) => get_pos(store@, id) == Some(*p),
            Err(e) => !contains_id(store@, id) && e == (ContractError::PositionNotFound { id }),
        },
{
    store.load(id)
}

/// Whether the enumeration scans in descending id order; unspecified means
/// descending.
pub open spec fn spec_descending(order: Option<QueryPositionsFilterOrder>) -> bool {
    match order {
        Some(o) => o is Descending,
        None => true,
    }
}

/// Which secondary index serves a filter, and under which composite key;
/// a filter selecting on nothing names no index.
pub open spec fn spec_chosen_index(f: QueryPositionsFilter) -> Option<
    (OtcPositionIndexer, Seq<Seq<char>>),
> {
    match (f.owner, f.executor, f.status) {
        (None, None, None) => None,
        (None, None, Some(st)) => Some((OtcPositionIndexer::Status, seq![st.spec_label()])),
        (None, Some(e), None) => Some((OtcPositionIndexer::Executor, seq![e@])),
        (None, Some(e), Some(st)) => Some(
            (OtcPositionIndexer::ExecutorStatus, seq![e@, st.spec_label()]),
        ),
        (Some(o), None, None) => Some((OtcPositionIndexer::Owner, seq![o@])),
        (Some(o), None, Some(st)) => Some(
            (OtcPositionIndexer::OwnerStatus, seq![o@, st.spec_label()]),
        ),
        (Some(o), Some(e), None) => Some((OtcPositionIndexer::OwnerExecutor, seq![o@, e@])),
        (Some(o), Some(e), Some(st)) => Some(
            (OtcPositionIndexer::OwnerExecutorStatus, seq![o@, e@, st.spec_label()]),
        ),
    }
}

/// Whether a position passes a filter: each named field must agree, the
/// executor compared through its index key so that an unset executor is
/// selected by the empty string, the status by its discrete label.
pub open spec fn matches_filter(p: OtcPosition, f: QueryPositionsFilter) -> bool {
    &&& (f.owner matches Some(o) ==> p.owner@ == o@)
    &&& (f.executor matches Some(e) ==> executor_key(p) == e@)
    &&& (f.status matches Some(st) ==> p.status.spec_label() == st.spec_label())
}

/// Filing under the chosen index key is the same as passing the filter: the
/// index lookup loses and adds nothing against a field-by-field check.
pub proof fn lemma_index_matches_filter(p: OtcPosition, f: QueryPositionsFilter)
    requires
        spec_chosen_index(f) is Some,
    ensures
        ({
            let sel = spec_chosen_index(f)->Some_0;
            index_key(p, sel.0) == sel.1 <==> matches_filter(p, f)
        }),
{
    let sel = spec_chosen_index(f)->Some_0;
    if matches_filter(p, f) {
        assert(index_key(p, sel.0) =~= sel.1);
    }
    if index_key(p, sel.0) == sel.1 {
        match (f.owner, f.executor, f.status) {
            (None, None, None) => {},
            (None, None, Some(st)) => {
                assert(p.status.spec_label() == sel.1[0]);
            },
            (None, Some(e), None) => {
                assert(executor_key(p) == sel.1[0]);
            },
            (None, Some(e), Some(st)) => {
                assert(executor_key(p) == sel.1[0]);
                assert(p.status.spec_label() == sel.1[1]);
            },
            (Some(o), None, None) => {
                assert(p.owner@ == sel.1[0]);
            },
            (Some(o), None, Some(st)) => {
                assert(p.owner@ == sel.1[0]);
                assert(p.status.spec_label() == sel.1[1]);
            },
            (Some(o), Some(e), None) => {
                assert(p.owner@ == sel.1[0]);
                assert(executor_key(p) == sel.1[1]);
            },
            (Some(o), Some(e), Some(st)) => {
                assert(p.owner@ == sel.1[0]);
                assert(executor_key(p) == sel.1[1]);
                assert(p.status.spec_label() == sel.1[2]);
            },
        }
    }
}

/// Filtering by either of two pointwise-equal predicates keeps the same rows.
proof fn lemma_filter_congruence(
    s: Seq<OtcPosition>,
    p1: spec_fn(OtcPosition) -> bool,
    p2: spec_fn(OtcPosition) -> bool,
)
    requires
        forall|x: OtcPosition| #[trigger] p1(x) == p2(x),
    ensures
        s.filter(p1) == s.filter(p2),
    decreases s.len(),
{
    reveal_with_fuel(Seq::<OtcPosition>::filter, 2);
    if s.len() > 0 {
        lemma_filter_congruence(s.drop_last(), p1, p2);
    }
}

/// An index-served enumeration agrees with a linear scan: it returns exactly
/// the filter-passing rows of the whole table, in scan order past the cursor,
/// truncated to the page size.
pub proof fn lemma_query_consistent_with_scan(
    table: Seq<OtcPosition>,
    f: QueryPositionsFilter,
    cursor: Option<u64>,
    descending: bool,
    limit: int,
)
    requires
        spec_chosen_index(f) is Some,
    ensures
        spec_scan(table, spec_chosen_index(f), cursor, descending, limit) == take_limit(
            (if descending {
                table.reverse()
            } else {
                table
            }).filter(
                |p: OtcPosition| matches_filter(p, f) && spec_after_cursor(p, cursor, descending),
            ),
            limit,
        ),
{
    let ordered = if descending {
        table.reverse()
    } else {
        table
    };
    let p1 = |p: OtcPosition| spec_scan_pred(p, spec_chosen_index(f), cursor, descending);
    let p2 = |p: OtcPosition| matches_filter(p, f) && spec_after_cursor(p, cursor, descending);
    assert forall|x: OtcPosition| #[trigger] p1(x) == p2(x) by {
        lemma_index_matches_filter(x, f);
    }
    lemma_filter_congruence(ordered, p1, p2);
}

/// Enumerates positions: exactly one index serves the filter combination (a
/// filter selecting on nothing is rejected; no filter at all scans the whole
/// table), in ascending or descending id order (descending when unspecified),
/// starting strictly past the cursor, at most the defaulted-and-capped page
/// size of them.
pub fn qy_positions<'a>(
    store: &'a PositionStore,
    start_after: Option<u64>,
    limit: Option<u32>,
    filters: Option<QueryPositionsFilter>,
    order: Option<QueryPositionsFilterOrder>,
) -> (r: Result<Vec<&'a OtcPosition>, ContractError>)
    ensures
        match filters {
            Some(f) => match spec_chosen_index(f) {
                None => r == Err::<Vec<&'a OtcPosition>, ContractError>(
                    ContractError::NoFilterProvided,
                ),
                Some(sel) => r matches Ok(v) && derefs(v@) == spec_scan(
                    store@,
                    Some(sel),
                    start_after,
                    spec_descending(order),
                    spec_limit(limit),
                ),
            },
            None => r matches Ok(v) && derefs(v@) == spec_scan(
                store@,
                None,
                start_after,
                spec_descending(order),
                spec_limit(limit),
            ),
        },
{
    let order = match order {
        Some(o) => o,
        None => QueryPositionsFilterOrder::Descending,
    };
    if let Some(f) = filters {
        let ghost fspec = f;
        match (f.owner, f.executor, f.status) {
            (None, None, None) => Err(ContractError::NoFilterProvided),
            (None, None, Some(status)) => {
                let key = vec![status.as_string()];
                proof {
                    assert(views_of(key@) =~= spec_chosen_index(fspec)->Some_0.1);
                }
                Ok(
                    get_multi_index_values(
                        store,
                        &key,
                        OtcPositionIndexer::Status,
                        order,
                        start_after,
                        limit,
                    ),
                )
            },
            (None, Some(executor), None) => {
                let key = vec![executor];
                proof {
                    assert(views_of(key@) =~= spec_chosen_index(fspec)->Some_0.1);
                }
                Ok(
                    get_multi_index_values(
                        store,
                        &key,
                        OtcPositionIndexer::Executor,
                        order,
                        start_after,
                        limit,
                    ),
                )
            },
            (None, Some(executor), Some(status)) => {
                let key = vec![executor, status.as_string()];
                proof {
                    assert(views_of(key@) =~= spec_chosen_index(fspec)->Some_0.1);
                }
                Ok(
                    get_multi_index_values(
                        store,
                        &key,
                        OtcPositionIndexer::ExecutorStatus,
                        order,
                        start_after,
                        limit,
                    ),
                )
            },
            (Some(owner), None, None) => {
                let key = vec![owner];
                proof {
                    assert(views_of(key@) =~= spec_chosen_index(fspec)->Some_0.1);
                }
                Ok(
                    get_multi_index_values(
                        store,
                        &key,
                        OtcPositionIndexer::Owner,
                        order,
                        start_after,
                        limit,
                    ),
                )
            },
            (Some(owner), None, Some(status)) => {
                let key = vec![owner, status.as_string()];
                proof {
                    assert(views_of(key@) =~= spec_chosen_index(fspec)->Some_0.1);
                }
                Ok(
                    get_multi_index_values(
                        store,
                        &key,
                        OtcPositionIndexer::OwnerStatus,
                        order,
                        start_after,
                        limit,
                    ),
                )
            },
            (Some(owner), Some(executor), None) => {
                let key = vec![owner, executor];
                proof {
                    assert(views_of(key@) =~= spec_chosen_index(fspec)->Some_0.1);
                }
                Ok(
                    get_multi_index_values(
                        store,
                        &key,
                        OtcPositionIndexer::OwnerExecutor,
                        order,
                        start_after,
                        limit,
                    ),
                )
            },
            (Some(owner), Some(executor), Some(status)) => {
                let key = vec![owner, executor, status.as_string()];
                proof {
                    assert(views_of(key@) =~= spec_chosen_index(fspec)->Some_0.1);
                }
                Ok(
                    get_multi_index_values(
                        store,
                        &key,
                        OtcPositionIndexer::OwnerExecutorStatus,
                        order,
                        start_after,
                        limit,
                    ),
                )
            },
        }
    } else {
        Ok(get_items(store, order, limit, start_after))
    }
}

} // verus!
