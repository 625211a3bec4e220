use tesser_execution::algorithm::AlgoStatus;
use tesser_execution::ident::Uuid;
use tesser_execution::repository::{AlgoSnapshot, AlgoStateRepository, MemoryAlgoStateRepository};

fn snapshot(id: u128, status: AlgoStatus, payload: &str, seq: u64) -> AlgoSnapshot {
    AlgoSnapshot {
        algo_id: Uuid::from_u128(id),
        kind: "WASM_PLUGIN".to_string(),
        status,
        payload: payload.to_string(),
        next_client_seq: seq,
    }
}

#[test]
fn put_then_get_returns_the_snapshot() {
    let mut repo = MemoryAlgoStateRepository::new();
    assert_eq!(repo.len(), 0);
    assert_eq!(repo.get(Uuid::from_u128(1)), Ok(None));
    repo.put(Uuid::from_u128(1), snapshot(1, AlgoStatus::Working, "{\"a\":1}", 3)).unwrap();
    assert_eq!(
        repo.get(Uuid::from_u128(1)),
        Ok(Some(snapshot(1, AlgoStatus::Working, "{\"a\":1}", 3)))
    );
    assert_eq!(repo.get(Uuid::from_u128(2)), Ok(None));
    assert_eq!(repo.len(), 1);
}

#[test]
fn put_overwrites_the_previous_snapshot() {
    let mut repo = MemoryAlgoStateRepository::new();
    repo.put(Uuid::from_u128(1), snapshot(1, AlgoStatus::Working, "{}", 1)).unwrap();
    repo.put(Uuid::from_u128(2), snapshot(2, AlgoStatus::Working, "{}", 1)).unwrap();
    repo.put(Uuid::from_u128(1), snapshot(1, AlgoStatus::Completed, "{\"done\":true}", 2)).unwrap();
    assert_eq!(repo.len(), 2);
    assert_eq!(
        repo.get(Uuid::from_u128(1)),
        Ok(Some(snapshot(1, AlgoStatus::Completed, "{\"done\":true}", 2)))
    );
}

#[test]
fn put_stores_the_snapshot_under_the_key() {
    let mut repo = MemoryAlgoStateRepository::new();
    repo.put(Uuid::from_u128(9), snapshot(1, AlgoStatus::Working, "{}", 0)).unwrap();
    assert_eq!(repo.get(Uuid::from_u128(1)), Ok(None));
    assert_eq!(repo.get(Uuid::from_u128(9)), Ok(Some(snapshot(9, AlgoStatus::Working, "{}", 0))));
}

#[test]
fn list_active_filters_to_working() {
    let mut repo = MemoryAlgoStateRepository::new();
    repo.put(Uuid::from_u128(1), snapshot(1, AlgoStatus::Working, "a", 0)).unwrap();
    repo.put(Uuid::from_u128(2), snapshot(2, AlgoStatus::Completed, "b", 0)).unwrap();
    repo.put(Uuid::from_u128(3), snapshot(3, AlgoStatus::Cancelled, "c", 0)).unwrap();
    repo.put(Uuid::from_u128(4), snapshot(4, AlgoStatus::Failed, "d", 0)).unwrap();
    repo.put(Uuid::from_u128(5), snapshot(5, AlgoStatus::Working, "e", 0)).unwrap();
    let mut ids: Vec<u128> =
        repo.list_active().unwrap().iter().map(|s| s.algo_id.as_u128()).collect();
    ids.sort();
    assert_eq!(ids, vec![1, 5]);
}

#[test]
fn delete_removes_the_snapshot() {
    let mut repo = MemoryAlgoStateRepository::new();
    repo.put(Uuid::from_u128(1), snapshot(1, AlgoStatus::Working, "a", 0)).unwrap();
    repo.put(Uuid::from_u128(2), snapshot(2, AlgoStatus::Working, "b", 0)).unwrap();
    repo.delete(Uuid::from_u128(1)).unwrap();
    assert_eq!(repo.get(Uuid::from_u128(1)), Ok(None));
    assert_eq!(repo.get(Uuid::from_u128(2)), Ok(Some(snapshot(2, AlgoStatus::Working, "b", 0))));
    repo.delete(Uuid::from_u128(7)).unwrap();
    assert_eq!(repo.len(), 1);
    assert_eq!(repo.list_active().unwrap().len(), 1);
}

#[test]
fn status_moves_only_out_of_working() {
    for target in [AlgoStatus::Completed, AlgoStatus::Cancelled, AlgoStatus::Failed] {
        assert_eq!(AlgoStatus::Working.advance(target), target);
        assert!(target.is_terminal());
        for later in [
            AlgoStatus::Working,
            AlgoStatus::Completed,
            AlgoStatus::Cancelled,
            AlgoStatus::Failed,
        ] {
            assert_eq!(target.advance(later), target);
        }
    }
    assert!(!AlgoStatus::Working.is_terminal());
    assert_eq!(AlgoStatus::Working.advance(AlgoStatus::Working), AlgoStatus::Working);
    assert_eq!(AlgoStatus::Cancelled.label(), "Cancelled");
}
