//! Declared per-slot account constraints, the reasons a slot can be
//! rejected, and the validation error type.

use vstd::prelude::*;

verus! {

/// The relationship a slot's account may be required to have to other slots
/// or to a derived address.
#[derive(Debug)]
pub enum Relation {
    /// No relationship is required.
    Unconstrained,
    /// The account's address must equal the address of the given earlier
    /// slot.
    EqualsSlot(usize),
    /// The account's address must differ from the address of the given
    /// earlier slot.
    DiffersFromSlot(usize),
    /// The account's address must equal the program-derived address computed
    /// from the program id and these seeds.
    DerivedFromSeeds(Vec<Vec<u8>>),
}

/// The mathematical model of a [`Relation`].
pub enum RelationModel {
    Unconstrained,
    EqualsSlot(usize),
    DiffersFromSlot(usize),
    DerivedFromSeeds(Seq<Seq<u8>>),
}

impl View for Relation {
    type V = RelationModel;

    open spec fn view(&self) -> RelationModel {
        match self {
            Relation::Unconstrained => RelationModel::Unconstrained,
            Relation::EqualsSlot(n) => RelationModel::EqualsSlot(*n),
            Relation::DiffersFromSlot(n) => RelationModel::DiffersFromSlot(*n),
            Relation::DerivedFromSeeds(seeds) => RelationModel::DerivedFromSeeds(
                seeds.deep_view(),
            ),
        }
    }
}

impl DeepView for Relation {
    type V = RelationModel;

    open spec fn deep_view(&self) -> RelationModel {
        self.view()
    }
}

/// The constraint declared for one expected account slot.
#[derive(Debug)]
pub struct AccountConstraint {
    /// The slot's name inside the validated context.
    pub name: String,
    /// The owner the account must have, or `None` for "any owner".
    pub owner: Option<Vec<u8>>,
    /// Whether the account must have signed the transaction.
    pub require_signer: bool,
    /// Whether the account must be writable.
    pub require_writable: bool,
    /// The slot's relationship to other slots or to a derived address.
    pub relation: Relation,
}

/// The mathematical model of an [`AccountConstraint`].
pub struct ConstraintModel {
    pub name: Seq<char>,
    pub owner: Option<Seq<u8>>,
    pub require_signer: bool,
    pub require_writable: bool,
    pub relation: RelationModel,
}

impl View for AccountConstraint {
    type V = ConstraintModel;

    open spec fn view(&self) -> ConstraintModel {
        ConstraintModel {
            name: self.name@,
            owner: match self.owner {
                Option::Some(ow) => Option::Some(ow@),
                Option::None => Option::None,
            },
            require_signer: self.require_signer,
            require_writable: self.require_writable,
            relation: self.relation@,
        }
    }
}

impl DeepView for AccountConstraint {
    type V = ConstraintModel;

    open spec fn deep_view(&self) -> ConstraintModel {
        self.view()
    }
}

/// A cross-slot relation may only point at a slot validated earlier, so a
/// relation declared at slot `i` is well-formed when it points below `i`.
pub open spec fn relation_wf(r: RelationModel, i: int) -> bool {
    match r {
        RelationModel::Unconstrained => true,
        RelationModel::EqualsSlot(n) => (n as int) < i,
        RelationModel::DiffersFromSlot(n) => (n as int) < i,
        RelationModel::DerivedFromSeeds(_) => true,
    }
}

/// A constraint list is well-formed when every cross-slot relation points
/// at an earlier slot.
pub open spec fn constraints_wf(cs: Seq<ConstraintModel>) -> bool {
    forall|i: int| 0 <= i < cs.len() ==> relation_wf(#[trigger] cs[i].relation, i)
}

/// The specific check a slot failed.
#[derive(Clone, Copy, PartialEq, Eq, Debug, Structural)]
pub enum Reason {
    /// The constraint list expects a slot the account list does not supply.
    MissingAccount,
    /// The account's owner is not the required owner.
    WrongOwner,
    /// The slot requires a signer and the account did not sign.
    MissingSigner,
    /// The slot requires a writable account and the account is read-only.
    NotWritable,
    /// The account's address does not equal the recomputed derived address.
    DerivedAddressMismatch,
    /// The account's address violates the declared cross-slot relation.
    CrossSlotMismatch,
}

/// A failed validation: the first slot that failed a check, and the first
/// check it failed.
#[derive(Clone, Copy, PartialEq, Eq, Debug, Structural)]
pub struct ValidationError {
    /// The index of the failing slot in the declared constraint order.
    pub slot: usize,
    /// The first check that slot failed.
    pub reason: Reason,
}

} // verus!
