//! The shipped program instance: its declared identity, the `initialize`
//! instruction with its (empty) account declaration, and the constructor
//! that builds the program's fixed instruction table.

use vstd::prelude::*;

use crate::account::is_address;
use crate::constraint::ConstraintModel;
use crate::dispatch::DeclModel;
use crate::dispatch::HandlerKind;
use crate::dispatch::InstructionDecl;
use crate::dispatch::Program;
use crate::dispatch::ProgramModel;
use crate::dispatch::program_wf;
use crate::log::greeting;
use crate::log::greeting_model;
use crate::validator::ValidatedContext;

verus! {

/// The program's declared identity, as the fixed byte identifier it was
/// deployed under.
pub open spec fn declared_id_model() -> Seq<u8> {
    seq![
        83u8, 25u8, 156u8, 121u8, 243u8, 49u8, 47u8, 188u8, 29u8, 211u8, 189u8, 217u8, 148u8,
        77u8, 160u8, 64u8, 219u8, 190u8, 4u8, 233u8, 42u8, 62u8, 142u8, 63u8, 156u8, 103u8,
        214u8, 199u8, 130u8, 143u8, 254u8, 9u8,
    ]
}

/// Builds the program's declared identity.
pub fn declared_id() -> (r: Vec<u8>)
    ensures
        r@ == declared_id_model(),
        is_address(r@),
{
    let r: Vec<u8> = vec![
        83u8, 25u8, 156u8, 121u8, 243u8, 49u8, 47u8, 188u8, 29u8, 211u8, 189u8, 217u8, 148u8,
        77u8, 160u8, 64u8, 219u8, 190u8, 4u8, 233u8, 42u8, 62u8, 142u8, 63u8, 156u8, 103u8,
        214u8, 199u8, 130u8, 143u8, 254u8, 9u8,
    ];
    proof {
        assert(r@ =~= declared_id_model());
    }
    r
}

/// The account declaration of the `initialize` instruction: it expects no
/// accounts, so its constraint list is empty.
pub struct Initialize {}

impl Initialize {
    /// The (empty) per-slot constraint list this declaration induces.
    pub fn constraints() -> (r: Vec<crate::constraint::AccountConstraint>)
        ensures
            r.deep_view() =~= Seq::<ConstraintModel>::empty(),
    {
        Vec::new()
    }
}

/// The `initialize` handler: performs no state mutation and only emits one
/// diagnostic line containing the program identifier. This is the floor
/// behavior any handler may reduce to.
pub fn initialize(program_id: &Vec<u8>, _ctx: &ValidatedContext, _payload: &Vec<u8>) -> (r: Result<
    Vec<String>,
    u64,
>)
    ensures
        r is Ok,
        r->Ok_0.deep_view() == seq![greeting_model(program_id@)],
{
    let mut logs: Vec<String> = Vec::new();
    logs.push(greeting(program_id));
    proof {
        assert(logs.deep_view() =~= seq![greeting_model(program_id@)]);
    }
    Result::Ok(logs)
}

/// The model of the shipped program: the declared identity and a single
/// registered instruction — discriminator zero, no payload, no accounts,
/// dispatching to the `initialize` handler.
pub open spec fn anchor_program_model() -> ProgramModel {
    ProgramModel {
        id: declared_id_model(),
        instructions: seq![
            DeclModel {
                discriminator: 0u8,
                payload_len: 0usize,
                constraints: Seq::<ConstraintModel>::empty(),
                handler: HandlerKind::Initialize,
            },
        ],
    }
}

/// Builds the shipped program with its fixed instruction table.
pub fn anchor_program() -> (p: Program)
    ensures
        p@ == anchor_program_model(),
        program_wf(p@),
{
    let mut instructions: Vec<InstructionDecl> = Vec::new();
    instructions.push(
        InstructionDecl {
            discriminator: 0u8,
            payload_len: 0usize,
            constraints: Initialize::constraints(),
            handler: HandlerKind::Initialize,
        },
    );
    let p = Program { id: declared_id(), instructions };
    proof {
        assert(p@.instructions =~= anchor_program_model().instructions);
        assert(p@ == anchor_program_model());
    }
    p
}

} // verus!
