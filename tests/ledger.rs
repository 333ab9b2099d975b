use phoenix_bonds::active_vector::ActiveVector;
use phoenix_bonds::bond_note::{BondNote, BondNotes, BondStatus};
use phoenix_bonds::lost_found::LostAndFound;
use phoenix_bonds::errors::BondError;
use phoenix_bonds::phoenix_bond::PhoenixBond;

fn note(id: u32) -> BondNote {
    BondNote::new(id, "alice".to_string(), 10, 5)
}

#[test]
fn active_vector_tracks_pending_items() {
    let mut v: ActiveVector<BondNote> = ActiveVector::new();
    assert_eq!(v.append(note(0)), 0);
    assert_eq!(v.append(note(1)), 1);
    assert_eq!(v.append(note(2)), 2);
    assert_eq!(v.len(), 3);
    assert_eq!(v.active_len(), 3);
    let mut settled = note(1);
    settled.cancel(9).unwrap();
    v.update(1, settled);
    assert_eq!(v.active_len(), 2);
    let mut active = v.get_active_item_indices();
    active.sort();
    assert_eq!(active, vec![0, 2]);
    assert_eq!(v.get_item_indices(), vec![0, 1, 2]);
    assert_eq!(v.get(1).unwrap().status(), BondStatus::Cancelled);
    assert!(v.get(3).is_none());
    assert_eq!(v.get_items(1, 5).len(), 2);
    assert_eq!(v.get_items(3, 5).len(), 0);
}

#[test]
fn note_settles_at_most_once() {
    let mut n = note(0);
    assert_eq!(n.length(8), 3);
    assert_eq!(n.commit(4, 4), Err(BondError::BadTimestamp));
    assert_eq!(n.commit(77, 8), Ok(()));
    assert_eq!(n.status(), BondStatus::Committed);
    assert_eq!(n.committed_pnear_amount, 77);
    assert_eq!(n.length(100), 3);
    assert_eq!(n.cancel(9), Err(BondError::InvalidNoteState));
    assert_eq!(n.commit(1, 9), Err(BondError::InvalidNoteState));
    assert_eq!(n.status(), BondStatus::Committed);
    assert_eq!(n.settled_at, 8);
}

#[test]
fn single_rate_owner_settings() {
    let owner = "owner".to_string();
    let mut b = PhoenixBond::new(owner.clone(), 10, 20);
    assert_eq!(b.set_alpha(&"eve".to_string(), 1), Err(BondError::NotOwner));
    assert_eq!(b.set_alpha(&owner, 11), Ok(()));
    assert_eq!(b.set_tau(&owner, 21), Ok(()));
    assert_eq!((b.alpha, b.tau), (11, 21));
    assert_eq!(b.change_owner(&owner, "next".to_string()), Ok(()));
    assert_eq!(b.set_tau(&owner, 1), Err(BondError::NotOwner));
}

#[test]
fn lost_and_found_restore_checks_entries() {
    let l = LostAndFound::from_entries(vec![("a".to_string(), 3), ("b".to_string(), 4)]).unwrap();
    assert_eq!(l.total_amount(), 7);
    assert_eq!(l.user_amount(&"b".to_string()), 4);
    assert!(LostAndFound::from_entries(vec![("a".to_string(), 3), ("a".to_string(), 4)]).is_none());
    assert!(LostAndFound::from_entries(vec![("a".to_string(), u128::MAX), ("b".to_string(), 1)]).is_none());
}

#[test]
fn bond_notes_restore_checks_notes() {
    let mut settled = note(1);
    settled.commit(5, 9).unwrap();
    let users = vec![("alice".to_string(), vec![note(0), settled])];
    let notes = BondNotes::from_user_notes(&users).unwrap();
    assert_eq!(notes.user_note_len(&"alice".to_string()), 2);
    assert_eq!(notes.user_pending_note_len(&"alice".to_string()), 1);
    assert_eq!(notes.get_user_note(&"alice".to_string(), 1).unwrap().committed_pnear_amount, 5);
    // an id that is not its position
    assert!(BondNotes::from_user_notes(&vec![("alice".to_string(), vec![note(1)])]).is_none());
    // a note of another account
    assert!(BondNotes::from_user_notes(&vec![("bob".to_string(), vec![note(0)])]).is_none());
    // an account listed twice
    let twice = vec![("alice".to_string(), vec![note(0)]), ("alice".to_string(), vec![])];
    assert!(BondNotes::from_user_notes(&twice).is_none());
    // settled before it was created
    let mut early = note(0);
    early.status = BondStatus::Cancelled;
    early.settled_at = 1;
    assert!(BondNotes::from_user_notes(&vec![("alice".to_string(), vec![early])]).is_none());
}
