use anchor::account::RawAccountInput;
use anchor::constraint::AccountConstraint;
use anchor::constraint::Reason;
use anchor::constraint::Relation;
use anchor::constraint::ValidationError;
use anchor::pda::derive_address;
use anchor::validator::validate;

fn addr(b: u8) -> Vec<u8> {
    vec![b; 32]
}

fn account(address: u8, owner: u8, is_signer: bool, is_writable: bool) -> RawAccountInput {
    RawAccountInput {
        address: addr(address),
        owner: addr(owner),
        is_signer,
        is_writable,
        lamports: 1_000,
        data: vec![],
    }
}

fn free_slot(name: &str) -> AccountConstraint {
    AccountConstraint {
        name: String::from(name),
        owner: None,
        require_signer: false,
        require_writable: false,
        relation: Relation::Unconstrained,
    }
}

#[test]
fn context_holds_exactly_the_declared_slots() {
    let accounts = vec![account(1, 9, true, true), account(2, 9, false, false), account(3, 9, false, false)];
    let mut payer = free_slot("payer");
    payer.require_signer = true;
    let constraints = vec![payer, free_slot("vault")];
    let pid = addr(7);
    let ctx = validate(&accounts, &constraints, &pid).unwrap();
    assert_eq!(ctx.len(), 2);
    assert_eq!(ctx.name_at(0), "payer");
    assert_eq!(ctx.name_at(1), "vault");
    assert_eq!(ctx.account_at(0).address, addr(1));
    assert_eq!(ctx.account_at(1).address, addr(2));
    assert!(ctx.account_at(0).is_signer);
}

#[test]
fn context_lookup_by_name_finds_the_bound_account() {
    let accounts = vec![account(1, 9, false, false), account(2, 9, false, false)];
    let constraints = vec![free_slot("payer"), free_slot("vault")];
    let ctx = validate(&accounts, &constraints, &addr(7)).unwrap();
    let vault = ctx.account_named(&String::from("vault")).unwrap();
    assert_eq!(vault.address, addr(2));
    assert!(ctx.account_named(&String::from("missing")).is_none());
}

#[test]
fn empty_constraints_accept_any_account_list() {
    let accounts = vec![account(1, 9, false, false)];
    let constraints: Vec<AccountConstraint> = vec![];
    let ctx = validate(&accounts, &constraints, &addr(7)).unwrap();
    assert_eq!(ctx.len(), 0);
    let ctx = validate(&vec![], &constraints, &addr(7)).unwrap();
    assert_eq!(ctx.len(), 0);
}

#[test]
fn missing_account_fails_the_first_unsupplied_slot() {
    let constraints = vec![free_slot("a"), free_slot("b")];
    let accounts = vec![account(1, 9, false, false)];
    let err = validate(&accounts, &constraints, &addr(7)).unwrap_err();
    assert_eq!(err, ValidationError { slot: 1, reason: Reason::MissingAccount });
    let err = validate(&vec![], &constraints, &addr(7)).unwrap_err();
    assert_eq!(err, ValidationError { slot: 0, reason: Reason::MissingAccount });
}

#[test]
fn wrong_owner_is_reported() {
    let mut c = free_slot("vault");
    c.owner = Some(addr(8));
    let accounts = vec![account(1, 9, false, false)];
    let err = validate(&accounts, &vec![c], &addr(7)).unwrap_err();
    assert_eq!(err, ValidationError { slot: 0, reason: Reason::WrongOwner });
}

#[test]
fn missing_signer_is_reported() {
    let mut c = free_slot("payer");
    c.require_signer = true;
    let accounts = vec![account(1, 9, false, true)];
    let err = validate(&accounts, &vec![c], &addr(7)).unwrap_err();
    assert_eq!(err, ValidationError { slot: 0, reason: Reason::MissingSigner });
}

#[test]
fn not_writable_is_reported() {
    let mut c = free_slot("state");
    c.require_writable = true;
    let accounts = vec![account(1, 9, true, false)];
    let err = validate(&accounts, &vec![c], &addr(7)).unwrap_err();
    assert_eq!(err, ValidationError { slot: 0, reason: Reason::NotWritable });
}

#[test]
fn derived_address_match_accepted_and_mismatch_reported() {
    let pid = addr(7);
    let seeds = vec![b"vault".to_vec()];
    let derived = derive_address(&pid, &seeds);
    let mut good = account(0, 9, false, false);
    good.address = derived;
    let mut c = free_slot("vault");
    c.relation = Relation::DerivedFromSeeds(seeds);
    let ctx = validate(&vec![good], &vec![c], &pid).unwrap();
    assert_eq!(ctx.len(), 1);

    let bad = account(2, 9, false, false);
    let mut c = free_slot("vault");
    c.relation = Relation::DerivedFromSeeds(vec![b"vault".to_vec()]);
    let err = validate(&vec![bad], &vec![c], &pid).unwrap_err();
    assert_eq!(err, ValidationError { slot: 0, reason: Reason::DerivedAddressMismatch });
}

#[test]
fn cross_slot_equality_and_inequality() {
    let mut same = free_slot("mirror");
    same.relation = Relation::EqualsSlot(0);
    let constraints = vec![free_slot("base"), same];
    let pid = addr(7);

    let accounts = vec![account(1, 9, false, false), account(1, 9, false, false)];
    assert!(validate(&accounts, &constraints, &pid).is_ok());

    let accounts = vec![account(1, 9, false, false), account(2, 9, false, false)];
    let err = validate(&accounts, &constraints, &pid).unwrap_err();
    assert_eq!(err, ValidationError { slot: 1, reason: Reason::CrossSlotMismatch });

    let mut other = free_slot("other");
    other.relation = Relation::DiffersFromSlot(0);
    let constraints = vec![free_slot("base"), other];
    let accounts = vec![account(1, 9, false, false), account(1, 9, false, false)];
    let err = validate(&accounts, &constraints, &pid).unwrap_err();
    assert_eq!(err, ValidationError { slot: 1, reason: Reason::CrossSlotMismatch });
    let accounts = vec![account(1, 9, false, false), account(2, 9, false, false)];
    assert!(validate(&accounts, &constraints, &pid).is_ok());
}

#[test]
fn first_failing_slot_and_first_failing_check_win() {
    let mut c0 = free_slot("a");
    c0.require_signer = true;
    let mut c1 = free_slot("b");
    c1.owner = Some(addr(8));
    let constraints = vec![c0, c1];
    // Slot 0 fails its signer check, slot 1 fails its owner check: the
    // earliest failing slot is the one reported.
    let accounts = vec![account(1, 9, false, false), account(2, 9, false, false)];
    let err = validate(&accounts, &constraints, &addr(7)).unwrap_err();
    assert_eq!(err, ValidationError { slot: 0, reason: Reason::MissingSigner });

    // One slot failing several checks reports the first check in declared
    // order: owner before signer before writable.
    let mut c = free_slot("a");
    c.owner = Some(addr(8));
    c.require_signer = true;
    c.require_writable = true;
    let accounts = vec![account(1, 9, false, false)];
    let err = validate(&accounts, &vec![c], &addr(7)).unwrap_err();
    assert_eq!(err, ValidationError { slot: 0, reason: Reason::WrongOwner });
}

#[test]
fn validation_is_idempotent_on_unchanged_inputs() {
    let mut payer = free_slot("payer");
    payer.require_signer = true;
    let constraints = vec![payer, free_slot("vault")];
    let accounts = vec![account(1, 9, true, true), account(2, 9, false, false)];
    let pid = addr(7);

    let first = validate(&accounts, &constraints, &pid).unwrap();
    let second = validate(&accounts, &constraints, &pid).unwrap();
    assert_eq!(first.len(), second.len());
    for i in 0..first.len() {
        assert_eq!(first.name_at(i), second.name_at(i));
        assert_eq!(first.account_at(i).address, second.account_at(i).address);
        assert_eq!(first.account_at(i).owner, second.account_at(i).owner);
        assert_eq!(first.account_at(i).is_signer, second.account_at(i).is_signer);
        assert_eq!(first.account_at(i).is_writable, second.account_at(i).is_writable);
        assert_eq!(first.account_at(i).lamports, second.account_at(i).lamports);
        assert_eq!(first.account_at(i).data, second.account_at(i).data);
    }

    let mut c = free_slot("payer");
    c.require_signer = true;
    let failing = vec![c];
    let accounts = vec![account(1, 9, false, false)];
    let e1 = validate(&accounts, &failing, &pid).unwrap_err();
    let e2 = validate(&accounts, &failing, &pid).unwrap_err();
    assert_eq!(e1, e2);
}
