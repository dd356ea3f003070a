use aetherlock_escrow::{add_admin, initialize_config, remove_admin, EscrowError, Identity};

fn id(b: u8) -> Identity {
    Identity::new([b; 32])
}

#[test]
fn config_takes_up_to_five_admins() {
    let c = initialize_config(id(0), vec![id(1), id(2), id(3), id(4), id(5)], 7).unwrap();
    assert_eq!(c.admin_pubkeys.len(), 5);
    assert_eq!(c.authority, id(0));
    assert_eq!(c.bump, 7);
    assert!(c.is_admin(&id(3)));
    assert!(!c.is_admin(&id(6)));
}

#[test]
fn config_refuses_six_admins() {
    let r = initialize_config(id(0), vec![id(1), id(2), id(3), id(4), id(5), id(6)], 7);
    assert_eq!(r.err(), Some(EscrowError::TooManyAdmins));
}

#[test]
fn config_refuses_listed_twice() {
    let r = initialize_config(id(0), vec![id(1), id(2), id(1)], 7);
    assert_eq!(r.err(), Some(EscrowError::AdminAlreadyExists));
}

#[test]
fn sixth_admin_is_refused() {
    let mut c = initialize_config(id(0), vec![], 1).unwrap();
    for b in 1..=5u8 {
        assert_eq!(add_admin(&mut c, id(0), id(b)), Ok(()));
    }
    assert_eq!(add_admin(&mut c, id(0), id(6)), Err(EscrowError::TooManyAdmins));
    assert_eq!(c.admin_pubkeys.len(), 5);
}

#[test]
fn duplicate_admin_is_refused() {
    let mut c = initialize_config(id(0), vec![id(1)], 1).unwrap();
    assert_eq!(add_admin(&mut c, id(0), id(1)), Err(EscrowError::AdminAlreadyExists));
    assert_eq!(c.admin_pubkeys, vec![id(1)]);
}

#[test]
fn only_authority_changes_admins() {
    let mut c = initialize_config(id(0), vec![id(1)], 1).unwrap();
    assert_eq!(add_admin(&mut c, id(1), id(2)), Err(EscrowError::UnauthorizedAdmin));
    assert_eq!(remove_admin(&mut c, id(1), id(1)), Err(EscrowError::UnauthorizedAdmin));
    assert_eq!(c.admin_pubkeys, vec![id(1)]);
}

#[test]
fn removing_absent_admin_is_a_no_op() {
    let mut c = initialize_config(id(0), vec![id(1), id(2)], 1).unwrap();
    assert_eq!(remove_admin(&mut c, id(0), id(9)), Ok(()));
    assert_eq!(c.admin_pubkeys, vec![id(1), id(2)]);
}

#[test]
fn removing_admin_keeps_the_others_in_order() {
    let mut c = initialize_config(id(0), vec![id(1), id(2), id(3)], 1).unwrap();
    assert_eq!(remove_admin(&mut c, id(0), id(2)), Ok(()));
    assert_eq!(c.admin_pubkeys, vec![id(1), id(3)]);
    assert_eq!(add_admin(&mut c, id(0), id(2)), Ok(()));
    assert_eq!(c.admin_pubkeys, vec![id(1), id(3), id(2)]);
}
