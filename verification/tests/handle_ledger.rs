//! The handle ledger as an allocation-counting double: constructing N
//! handles and dropping them in any order releases exactly N allocations,
//! a second release of the same id is refused, and fresh acquisitions are
//! independent of everything live.

use graphicsmagick::handles::HandleLedger;

#[test]
fn test_acquire_then_release_any_order_balances() {
    let mut ledger = HandleLedger::new();
    assert_eq!(ledger.outstanding(), 0);

    let ids: Vec<u64> = (0..5).map(|_| ledger.acquire()).collect();
    assert_eq!(ledger.outstanding(), 5);

    // Drop in an order unrelated to construction order.
    let order = [ids[3], ids[0], ids[4], ids[2], ids[1]];
    for (step, id) in order.iter().enumerate() {
        assert!(ledger.release(*id));
        assert_eq!(ledger.outstanding(), 5 - step - 1);
    }
    assert_eq!(ledger.outstanding(), 0);
}

#[test]
fn test_double_release_is_refused() {
    let mut ledger = HandleLedger::new();
    let id = ledger.acquire();
    assert!(ledger.release(id));
    assert!(!ledger.release(id));
    assert_eq!(ledger.outstanding(), 0);
}

#[test]
fn test_release_of_unknown_id_is_refused() {
    let mut ledger = HandleLedger::new();
    let id = ledger.acquire();
    assert!(!ledger.release(id + 1));
    assert_eq!(ledger.outstanding(), 1);
}

#[test]
fn test_acquisitions_are_independent() {
    // A clone takes a fresh allocation: its id is distinct from the
    // original's, and releasing one leaves the other live.
    let mut ledger = HandleLedger::new();
    let original = ledger.acquire();
    let clone = ledger.acquire();
    assert_ne!(original, clone);
    assert!(ledger.is_live(original));
    assert!(ledger.is_live(clone));
    assert!(ledger.release(clone));
    assert!(ledger.is_live(original));
    assert!(!ledger.is_live(clone));
    assert!(ledger.release(original));
    assert_eq!(ledger.outstanding(), 0);
}

#[test]
fn test_interleaved_acquire_release() {
    let mut ledger = HandleLedger::new();
    let a = ledger.acquire();
    let b = ledger.acquire();
    assert!(ledger.release(a));
    let c = ledger.acquire();
    assert_ne!(c, b);
    assert_eq!(ledger.outstanding(), 2);
    assert!(ledger.release(b));
    assert!(ledger.release(c));
    assert_eq!(ledger.outstanding(), 0);
}
