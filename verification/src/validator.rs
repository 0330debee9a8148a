//! The account context validator: checks an ordered, untrusted account list
//! against an ordered, declared constraint list and produces either a fully
//! validated context or the first failure, never anything in between.

use vstd::prelude::*;

use crate::account::AccountModel;
use crate::account::RawAccountInput;
use crate::account::bytes_eq;
use crate::constraint::AccountConstraint;
use crate::constraint::ConstraintModel;
use crate::constraint::Reason;
use crate::constraint::Relation;
use crate::constraint::RelationModel;
use crate::constraint::ValidationError;
use crate::constraint::constraints_wf;
use crate::constraint::relation_wf;
use crate::pda::derive_address;
use crate::pda::derived_address_model;

verus! {

/// One validated slot: the declared name bound to the account that passed
/// the slot's constraint.
#[derive(Debug)]
pub struct ValidatedSlot {
    /// The slot's declared name.
    pub name: String,
    /// The account occupying this slot.
    pub account: RawAccountInput,
}

/// The mathematical model of a [`ValidatedSlot`].
pub struct SlotModel {
    pub name: Seq<char>,
    pub account: AccountModel,
}

impl View for ValidatedSlot {
    type V = SlotModel;

    open spec fn view(&self) -> SlotModel {
        SlotModel { name: self.name@, account: self.account@ }
    }
}

impl DeepView for ValidatedSlot {
    type V = SlotModel;

    open spec fn deep_view(&self) -> SlotModel {
        self.view()
    }
}

/// An ordered, named mapping from slot to validated account.
///
/// A context is only ever constructed by [`validate`], and only when every
/// declared slot passed every one of its checks; no partially validated
/// context can be observed.
#[derive(Debug)]
pub struct ValidatedContext {
    slots: Vec<ValidatedSlot>,
}

impl View for ValidatedContext {
    type V = Seq<SlotModel>;

    closed spec fn view(&self) -> Seq<SlotModel> {
        self.slots.deep_view()
    }
}

impl ValidatedContext {
    /// The number of validated slots.
    pub fn len(&self) -> (n: usize)
        ensures
            n == self@.len(),
    {
        self.slots.len()
    }

    /// The declared name of the slot at `i`.
    pub fn name_at(&self, i: usize) -> (r: &String)
        requires
            i < self@.len(),
        ensures
            r@ == self@[i as int].name,
    {
        &self.slots[i].name
    }

    /// The validated account occupying the slot at `i`.
    pub fn account_at(&self, i: usize) -> (r: &RawAccountInput)
        requires
            i < self@.len(),
        ensures
            r@ == self@[i as int].account,
    {
        &self.slots[i].account
    }

    /// The validated account bound to the first slot with the given name,
    /// or `None` when no slot carries it.
    pub fn account_named(&self, name: &String) -> (r: Option<&RawAccountInput>)
        ensures
            match r {
                Option::Some(a) => {
                    let i = first_named_from(self@, name@, 0);
                    i is Some && a@ == self@[i->0].account
                },
                Option::None => first_named_from(self@, name@, 0) is None,
            },
    {
        let n: usize = self.slots.len();
        let mut i: usize = 0;
        while i < n
            invariant
                i <= n,
                n == self@.len(),
                self@ == self.slots.deep_view(),
                first_named_from(self@, name@, 0) == first_named_from(self@, name@, i as int),
            decreases n - i,
        {
            proof {
                assert(self.slots.deep_view()[i as int] == self.slots@[i as int]@);
            }
            if self.slots[i].name == *name {
                return Option::Some(&self.slots[i].account);
            }
            i = i + 1;
        }
        Option::None
    }
}

/// The index of the first slot at or after `start` whose name is `name`,
/// or `None` when no remaining slot carries it.
pub open spec fn first_named_from(slots: Seq<SlotModel>, name: Seq<char>, start: int) -> Option<
    int,
>
    decreases slots.len() - start,
{
    if start < 0 || start >= slots.len() {
        Option::None
    } else if slots[start].name == name {
        Option::Some(start)
    } else {
        first_named_from(slots, name, start + 1)
    }
}

/// The outcome of checking one slot: the first failing check, in the fixed
/// order owner match, signer requirement, writable requirement, declared
/// relation; or `None` when every check passes. A slot the account list
/// does not supply fails before any check runs.
pub open spec fn check_slot(
    c: ConstraintModel,
    accs: Seq<AccountModel>,
    i: int,
    pid: Seq<u8>,
) -> Option<Reason> {
    if i >= accs.len() {
        Option::Some(Reason::MissingAccount)
    } else {
        let a = accs[i];
        if c.owner is Some && a.owner != c.owner.unwrap() {
            Option::Some(Reason::WrongOwner)
        } else if c.require_signer && !a.is_signer {
            Option::Some(Reason::MissingSigner)
        } else if c.require_writable && !a.is_writable {
            Option::Some(Reason::NotWritable)
        } else {
            match c.relation {
                RelationModel::Unconstrained => Option::None,
                RelationModel::EqualsSlot(n) => if a.address != accs[n as int].address {
                    Option::Some(Reason::CrossSlotMismatch)
                } else {
                    Option::None
                },
                RelationModel::DiffersFromSlot(n) => if a.address == accs[n as int].address {
                    Option::Some(Reason::CrossSlotMismatch)
                } else {
                    Option::None
                },
                RelationModel::DerivedFromSeeds(seeds) => if a.address != derived_address_model(
                    pid,
                    seeds,
                ) {
                    Option::Some(Reason::DerivedAddressMismatch)
                } else {
                    Option::None
                },
            }
        }
    }
}

/// The first slot at or after `start` that fails a check, together with the
/// first check it fails; `None` when every remaining slot passes.
pub open spec fn first_failure_from(
    cs: Seq<ConstraintModel>,
    accs: Seq<AccountModel>,
    pid: Seq<u8>,
    start: int,
) -> Option<(int, Reason)>
    decreases cs.len() - start,
{
    if start < 0 || start >= cs.len() {
        Option::None
    } else {
        match check_slot(cs[start], accs, start, pid) {
            Option::Some(re) => Option::Some((start, re)),
            Option::None => first_failure_from(cs, accs, pid, start + 1),
        }
    }
}

/// The first failing slot of the whole constraint list, if any.
pub open spec fn first_failure(
    cs: Seq<ConstraintModel>,
    accs: Seq<AccountModel>,
    pid: Seq<u8>,
) -> Option<(int, Reason)> {
    first_failure_from(cs, accs, pid, 0)
}

/// What validation returns, as a pure function of its inputs: the full
/// context — the account at every constraint's position, bound to that
/// constraint's name, in declared order — or the first failure. There is
/// no third outcome.
pub open spec fn spec_validate(
    cs: Seq<ConstraintModel>,
    accs: Seq<AccountModel>,
    pid: Seq<u8>,
) -> Result<Seq<SlotModel>, (int, Reason)> {
    match first_failure(cs, accs, pid) {
        Option::Some((i, re)) => Result::Err((i, re)),
        Option::None => Result::Ok(
            Seq::new(cs.len(), |j: int| SlotModel { name: cs[j].name, account: accs[j] }),
        ),
    }
}

/// `first_failure_from` finds exactly the first failing slot at or after
/// `start`: every slot before it passes, and when it returns `None`, every
/// remaining slot passes.
proof fn lemma_first_failure_from_exact(
    cs: Seq<ConstraintModel>,
    accs: Seq<AccountModel>,
    pid: Seq<u8>,
    start: int,
)
    requires
        0 <= start <= cs.len(),
    ensures
        match first_failure_from(cs, accs, pid, start) {
            Option::None => forall|i: int|
                start <= i < cs.len() ==> check_slot(#[trigger] cs[i], accs, i, pid) is None,
            Option::Some((i, re)) => start <= i < cs.len() && check_slot(cs[i], accs, i, pid)
                == Option::Some(re) && forall|j: int|
                start <= j < i ==> check_slot(#[trigger] cs[j], accs, j, pid) is None,
        },
    decreases cs.len() - start,
{
    if start < cs.len() {
        if check_slot(cs[start], accs, start, pid) is None {
            lemma_first_failure_from_exact(cs, accs, pid, start + 1);
        }
    }
}

/// Validation succeeds exactly when every declared slot passes every one of
/// its checks, and then the context holds exactly the accounts of the list
/// at the constraints' positions, bound to the constraints' names, in the
/// declared order — never more and never fewer. Otherwise it fails; there
/// is no third outcome.
pub proof fn lemma_validate_exact(cs: Seq<ConstraintModel>, accs: Seq<AccountModel>, pid: Seq<u8>)
    ensures
        spec_validate(cs, accs, pid) is Ok <==> (forall|i: int|
            0 <= i < cs.len() ==> check_slot(#[trigger] cs[i], accs, i, pid) is None),
        spec_validate(cs, accs, pid) is Ok ==> ({
            let slots = spec_validate(cs, accs, pid)->Ok_0;
            slots.len() == cs.len() && forall|j: int|
                0 <= j < cs.len() ==> #[trigger] slots[j] == (SlotModel {
                    name: cs[j].name,
                    account: accs[j],
                })
        }),
{
    lemma_first_failure_from_exact(cs, accs, pid, 0);
}

/// Fail-closed: if any single slot fails any single check, the overall
/// outcome is a failure referencing one slot's index and that slot's first
/// failing reason — the earliest failing slot at or before the given one —
/// and never a context with a subset of slots omitted.
pub proof fn lemma_validate_fail_closed(
    cs: Seq<ConstraintModel>,
    accs: Seq<AccountModel>,
    pid: Seq<u8>,
    i: int,
)
    requires
        0 <= i < cs.len(),
        check_slot(cs[i], accs, i, pid) is Some,
    ensures
        spec_validate(cs, accs, pid) is Err,
        ({
            let (j, re) = spec_validate(cs, accs, pid)->Err_0;
            0 <= j <= i && check_slot(cs[j], accs, j, pid) == Option::Some(re) && forall|k: int|
                0 <= k < j ==> check_slot(#[trigger] cs[k], accs, k, pid) is None
        }),
{
    lemma_first_failure_from_exact(cs, accs, pid, 0);
}

/// One slot's checks read only the account at its own position and at the
/// earlier position a cross-slot relation points to, so two account lists
/// that agree on the declared positions decide the slot identically.
proof fn lemma_check_slot_reads_declared_positions(
    c: ConstraintModel,
    accs1: Seq<AccountModel>,
    accs2: Seq<AccountModel>,
    i: int,
    pid: Seq<u8>,
    m: int,
)
    requires
        relation_wf(c.relation, i),
        0 <= i < m,
        m <= accs1.len(),
        m <= accs2.len(),
        forall|j: int| 0 <= j < m ==> accs1[j] == accs2[j],
    ensures
        check_slot(c, accs1, i, pid) == check_slot(c, accs2, i, pid),
{
}

/// Extra trailing accounts beyond the declared slots are ignored: the
/// outcome of validation over the full account list is the outcome over
/// just its first `cs.len()` accounts.
pub proof fn lemma_trailing_accounts_ignored(
    cs: Seq<ConstraintModel>,
    accs: Seq<AccountModel>,
    pid: Seq<u8>,
)
    requires
        constraints_wf(cs),
        cs.len() <= accs.len(),
    ensures
        spec_validate(cs, accs, pid) == spec_validate(cs, accs.take(cs.len() as int), pid),
{
    let front = accs.take(cs.len() as int);
    assert forall|start: int| 0 <= start <= cs.len() implies first_failure_from(cs, accs, pid, start)
        == first_failure_from(cs, front, pid, start) by {
        lemma_first_failure_from_agrees(cs, accs, front, pid, start);
    }
    match first_failure(cs, accs, pid) {
        Option::Some(_) => {},
        Option::None => {
            assert(spec_validate(cs, accs, pid)->Ok_0 =~= spec_validate(cs, front, pid)->Ok_0);
        },
    }
}

/// Helper induction for [`lemma_trailing_accounts_ignored`]: the first
/// failure is the same over two account lists that agree on the declared
/// positions.
proof fn lemma_first_failure_from_agrees(
    cs: Seq<ConstraintModel>,
    accs1: Seq<AccountModel>,
    accs2: Seq<AccountModel>,
    pid: Seq<u8>,
    start: int,
)
    requires
        constraints_wf(cs),
        cs.len() <= accs1.len(),
        cs.len() <= accs2.len(),
        forall|j: int| 0 <= j < cs.len() ==> accs1[j] == accs2[j],
        0 <= start <= cs.len(),
    ensures
        first_failure_from(cs, accs1, pid, start) == first_failure_from(cs, accs2, pid, start),
    decreases cs.len() - start,
{
    if start < cs.len() {
        lemma_check_slot_reads_declared_positions(
            cs[start],
            accs1,
            accs2,
            start,
            pid,
            cs.len() as int,
        );
        if check_slot(cs[start], accs1, start, pid) is None {
            lemma_first_failure_from_agrees(cs, accs1, accs2, pid, start + 1);
        }
    }
}

/// Validation carries no state between calls: its outcome is a pure
/// function of the account list, the constraint list and the program id,
/// so any two runs on the same unchanged inputs yield the identical
/// result.
pub proof fn lemma_validate_idempotent(
    cs: Seq<ConstraintModel>,
    accs: Seq<AccountModel>,
    pid: Seq<u8>,
    r1: Result<Seq<SlotModel>, (int, Reason)>,
    r2: Result<Seq<SlotModel>, (int, Reason)>,
)
    requires
        r1 == spec_validate(cs, accs, pid),
        r2 == spec_validate(cs, accs, pid),
    ensures
        r1 == r2,
{
}

/// Decides one slot's checks in declared order and reports the first
/// failing one.
fn check_slot_exec(
    c: &AccountConstraint,
    accounts: &Vec<RawAccountInput>,
    i: usize,
    program_id: &Vec<u8>,
) -> (r: Option<Reason>)
    requires
        relation_wf(c@.relation, i as int),
    ensures
        r == check_slot(c@, accounts.deep_view(), i as int, program_id@),
{
    proof {
        assert(accounts.deep_view().len() == accounts@.len());
    }
    if i >= accounts.len() {
        return Option::Some(Reason::MissingAccount);
    }
    proof {
        assert(accounts.deep_view()[i as int] == accounts@[i as int]@);
    }
    let a = &accounts[i];
    match &c.owner {
        Option::Some(required) => {
            if !bytes_eq(&a.owner, required) {
                return Option::Some(Reason::WrongOwner);
            }
        },
        Option::None => {},
    }
    if c.require_signer && !a.is_signer {
        return Option::Some(Reason::MissingSigner);
    }
    if c.require_writable && !a.is_writable {
        return Option::Some(Reason::NotWritable);
    }
    match &c.relation {
        Relation::Unconstrained => Option::None,
        Relation::EqualsSlot(n) => {
            proof {
                assert(accounts.deep_view()[*n as int] == accounts@[*n as int]@);
            }
            if !bytes_eq(&a.address, &accounts[*n].address) {
                Option::Some(Reason::CrossSlotMismatch)
            } else {
                Option::None
            }
        },
        Relation::DiffersFromSlot(n) => {
            proof {
                assert(accounts.deep_view()[*n as int] == accounts@[*n as int]@);
            }
            if bytes_eq(&a.address, &accounts[*n].address) {
                Option::Some(Reason::CrossSlotMismatch)
            } else {
                Option::None
            }
        },
        Relation::DerivedFromSeeds(seeds) => {
            let derived = derive_address(program_id, seeds);
            if !bytes_eq(&a.address, &derived) {
                Option::Some(Reason::DerivedAddressMismatch)
            } else {
                Option::None
            }
        },
    }
}

/// Checks each declared slot in order against the account at its position
/// and builds the validated context, or fails closed on the first slot that
/// fails a check.
///
/// Extra trailing accounts beyond the declared slots are permitted and
/// ignored. The result is a pure function of the arguments: nothing is
/// carried between calls, so an unchanged input always yields the identical
/// outcome.
pub fn validate(
    accounts: &Vec<RawAccountInput>,
    constraints: &Vec<AccountConstraint>,
    program_id: &Vec<u8>,
) -> (r: Result<ValidatedContext, ValidationError>)
    requires
        constraints_wf(constraints.deep_view()),
    ensures
        ({
            let outcome = spec_validate(constraints.deep_view(), accounts.deep_view(), program_id@);
            match r {
                Result::Ok(ctx) => outcome is Ok && ctx@ == outcome->Ok_0,
                Result::Err(e) => outcome is Err && outcome->Err_0 == (
                    e.slot as int,
                    e.reason,
                ),
            }
        }),
{
    let ghost cs = constraints.deep_view();
    let ghost accs = accounts.deep_view();
    let n: usize = constraints.len();
    let mut slots: Vec<ValidatedSlot> = Vec::new();
    let mut i: usize = 0;
    while i < n
        invariant
            i <= n,
            n == constraints@.len(),
            cs == constraints.deep_view(),
            accs == accounts.deep_view(),
            constraints_wf(cs),
            first_failure(cs, accs, program_id@) == first_failure_from(cs, accs, program_id@, i as int),
            slots.deep_view().len() == i,
            forall|j: int| 0 <= j < i ==> #[trigger] slots.deep_view()[j] == (SlotModel {
                name: cs[j].name,
                account: accs[j],
            }),
        decreases n - i,
    {
        proof {
            assert(constraints.deep_view()[i as int] == constraints@[i as int]@);
            assert(relation_wf(cs[i as int].relation, i as int));
        }
        match check_slot_exec(&constraints[i], accounts, i, program_id) {
            Option::Some(re) => {
                return Result::Err(ValidationError { slot: i, reason: re });
            },
            Option::None => {},
        }
        proof {
            assert(i < accs.len()) by {
                assert(check_slot(cs[i as int], accs, i as int, program_id@) is None);
            }
            assert(accounts.deep_view()[i as int] == accounts@[i as int]@);
        }
        let slot = ValidatedSlot {
            name: constraints[i].name.clone(),
            account: accounts[i].snapshot(),
        };
        let ghost prev = slots.deep_view();
        let ghost slot_model = slot@;
        slots.push(slot);
        proof {
            assert(slots.deep_view() =~= prev.push(slot_model));
            assert(slot_model == (SlotModel { name: cs[i as int].name, account: accs[i as int] }));
        }
        i = i + 1;
    }
    proof {
        assert(first_failure_from(cs, accs, program_id@, n as int) is None);
        let built = slots.deep_view();
        let wanted = Seq::new(cs.len(), |j: int| SlotModel { name: cs[j].name, account: accs[j] });
        assert(built =~= wanted);
    }
    Result::Ok(ValidatedContext { slots })
}

} // verus!
