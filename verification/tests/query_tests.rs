use cw_otc::definitions::{OtcPosition, OtcPositionStatus};
use cw_otc::msgs::{
    QueryPositionsFilter, QueryPositionsFilterOrder, QueryPositionsFilterStatus,
};
use cw_otc::query::{qy_position, qy_positions};
use cw_otc::response::ContractError;
use cw_otc::state::{positions, PositionStore};

fn pos(id: u64, owner: &str, executor: Option<&str>, status: OtcPositionStatus) -> OtcPosition {
    OtcPosition {
        id,
        owner: owner.to_string(),
        executor: executor.map(|e| e.to_string()),
        offer: vec![],
        ask: vec![],
        creation_time: id,
        status,
    }
}

/// The sample table: both owners, bound and unbound executors, every status.
fn sample_rows() -> Vec<(u64, &'static str, &'static str, &'static str)> {
    // (id, owner, executor key, status label)
    vec![
        (1, "alice", "", "pending"),
        (2, "alice", "xavier", "vesting"),
        (3, "bob", "xavier", "executed"),
        (4, "bob", "", "pending"),
        (5, "alice", "yara", "vesting"),
        (6, "bob", "yara", "executed"),
        (7, "alice", "xavier", "pending"),
    ]
}

fn sample_store() -> PositionStore {
    let mut store = positions();
    let status_of = |label: &str, id: u64| match label {
        "pending" => OtcPositionStatus::Pending,
        "vesting" => OtcPositionStatus::Vesting(id * 10),
        _ => OtcPositionStatus::Executed(id * 10),
    };
    for (id, owner, exec, label) in sample_rows() {
        let executor = if exec.is_empty() { None } else { Some(exec) };
        store.save(id, pos(id, owner, executor, status_of(label, id)));
    }
    store
}

/// A plain linear scan over the unindexed rows: filter each field, order by
/// id, apply the exclusive cursor, truncate to the (defaulted, capped) limit.
fn linear_scan(
    owner: Option<&str>,
    executor: Option<&str>,
    status: Option<&str>,
    descending: bool,
    start_after: Option<u64>,
    limit: Option<u32>,
) -> Vec<u64> {
    let mut rows = sample_rows();
    if descending {
        rows.reverse();
    }
    let cap = limit.unwrap_or(10).min(30) as usize;
    let mut out = vec![];
    for (id, o, e, s) in rows {
        if let Some(want) = owner {
            if o != want {
                continue;
            }
        }
        if let Some(want) = executor {
            if e != want {
                continue;
            }
        }
        if let Some(want) = status {
            if s != want {
                continue;
            }
        }
        if let Some(c) = start_after {
            if descending && id >= c {
                continue;
            }
            if !descending && id <= c {
                continue;
            }
        }
        if out.len() < cap {
            out.push(id);
        }
    }
    out
}

fn query_ids(
    store: &PositionStore,
    owner: Option<&str>,
    executor: Option<&str>,
    status: Option<&str>,
    descending: bool,
    start_after: Option<u64>,
    limit: Option<u32>,
) -> Vec<u64> {
    let filters = if owner.is_none() && executor.is_none() && status.is_none() {
        None
    } else {
        let status = status.map(|s| match s {
            "pending" => QueryPositionsFilterStatus::Pending,
            "vesting" => QueryPositionsFilterStatus::Vesting,
            _ => QueryPositionsFilterStatus::Executed,
        });
        Some(QueryPositionsFilter {
            owner: owner.map(|o| o.to_string()),
            executor: executor.map(|e| e.to_string()),
            status,
        })
    };
    let order = if descending {
        QueryPositionsFilterOrder::Descending
    } else {
        QueryPositionsFilterOrder::Ascending
    };
    qy_positions(store, start_after, limit, filters, Some(order))
        .unwrap()
        .iter()
        .map(|p| p.id)
        .collect()
}

/// Every filter combination, both orders, with and without cursor and limit,
/// agrees with a linear scan of the unindexed table.
#[test]
fn indexed_queries_agree_with_linear_scans() {
    let store = sample_store();
    let owners = [None, Some("alice"), Some("bob"), Some("nobody")];
    let executors = [None, Some("xavier"), Some("yara"), Some("")];
    let statuses = [None, Some("pending"), Some("vesting"), Some("executed")];
    let cursors = [None, Some(3), Some(7)];
    let limits = [None, Some(2), Some(0), Some(50)];
    for owner in owners {
        for executor in executors {
            for status in statuses {
                if owner.is_none() && executor.is_none() && status.is_none() {
                    continue;
                }
                for descending in [false, true] {
                    for start_after in cursors {
                        for limit in limits {
                            let got = query_ids(
                                &store, owner, executor, status, descending, start_after, limit,
                            );
                            let want = linear_scan(
                                owner, executor, status, descending, start_after, limit,
                            );
                            assert_eq!(got, want);
                        }
                    }
                }
            }
        }
    }
}

/// The unfiltered enumeration walks the whole table in id order.
#[test]
fn unfiltered_enumeration_agrees_with_linear_scan() {
    let store = sample_store();
    for descending in [false, true] {
        for start_after in [None, Some(4)] {
            for limit in [None, Some(3)] {
                let got = query_ids(&store, None, None, None, descending, start_after, limit);
                let want = linear_scan(None, None, None, descending, start_after, limit);
                assert_eq!(got, want);
            }
        }
    }
}

/// Filtering by the empty executor string selects exactly the positions whose
/// executor is still open.
#[test]
fn empty_executor_key_selects_unbound_positions() {
    let store = sample_store();
    let got = query_ids(&store, None, Some(""), None, false, None, None);
    assert_eq!(got, vec![1, 4]);
}

/// A filter that selects on nothing is rejected.
#[test]
fn empty_filter_is_rejected() {
    let store = sample_store();
    let r = qy_positions(
        &store,
        None,
        None,
        Some(QueryPositionsFilter { owner: None, executor: None, status: None }),
        None,
    );
    assert!(matches!(r, Err(ContractError::NoFilterProvided)));
}

/// The order defaults to descending and the page size to ten.
#[test]
fn enumeration_defaults_descending_and_ten() {
    let mut store = positions();
    for id in 1..=12u64 {
        store.save(id, pos(id, "alice", None, OtcPositionStatus::Pending));
    }
    let got: Vec<u64> = qy_positions(&store, None, None, None, None)
        .unwrap()
        .iter()
        .map(|p| p.id)
        .collect();
    assert_eq!(got, vec![12, 11, 10, 9, 8, 7, 6, 5, 4, 3]);
}

/// The page size is capped at thirty even when more is requested.
#[test]
fn enumeration_caps_the_page_size() {
    let mut store = positions();
    for id in 1..=40u64 {
        store.save(id, pos(id, "alice", None, OtcPositionStatus::Pending));
    }
    let got = qy_positions(&store, None, Some(100), None, Some(QueryPositionsFilterOrder::Ascending))
        .unwrap();
    assert_eq!(got.len(), 30);
    assert_eq!(got[0].id, 1);
    assert_eq!(got[29].id, 30);
}

/// Writes keep the store consistent: saving under an existing id replaces the
/// row, removal deletes exactly that row, and unknown ids are not found.
#[test]
fn store_save_replace_and_remove() {
    let mut store = positions();
    store.save(2, pos(2, "alice", None, OtcPositionStatus::Pending));
    store.save(1, pos(1, "bob", None, OtcPositionStatus::Pending));
    store.save(2, pos(2, "carol", None, OtcPositionStatus::Vesting(4)));

    assert_eq!(qy_position(&store, 2).unwrap().owner, "carol");
    assert_eq!(qy_position(&store, 1).unwrap().owner, "bob");
    assert_eq!(
        qy_position(&store, 3),
        Err(ContractError::PositionNotFound { id: 3 })
    );

    store.remove(1);
    assert_eq!(
        qy_position(&store, 1),
        Err(ContractError::PositionNotFound { id: 1 })
    );
    assert_eq!(qy_position(&store, 2).unwrap().owner, "carol");
}

/// The filter status labels match the position status labels.
#[test]
fn filter_status_labels() {
    assert_eq!(QueryPositionsFilterStatus::Pending.as_string(), "pending");
    assert_eq!(QueryPositionsFilterStatus::Vesting.as_string(), "vesting");
    assert_eq!(QueryPositionsFilterStatus::Executed.as_string(), "executed");
}
