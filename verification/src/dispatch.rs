//! The instruction dispatcher: the single program entrypoint. It decodes
//! the leading fixed-width discriminator and the handler's payload from the
//! instruction bytes, builds the handler's declared account context through
//! the validator, invokes the handler, and maps every failure to the
//! outward error representation.

use vstd::prelude::*;

use crate::account::AccountModel;
use crate::account::RawAccountInput;
use crate::account::is_address;
use crate::constraint::AccountConstraint;
use crate::constraint::ConstraintModel;
use crate::constraint::ValidationError;
use crate::constraint::Reason;
use crate::constraint::constraints_wf;
use crate::log::greeting_model;
use crate::validator::ValidatedContext;
use crate::validator::spec_validate;
use crate::validator::validate;

verus! {

/// The closed set of handler behaviors this program ships. The
/// discriminator-to-declaration table binds each registered discriminator
/// to one of these; an unregistered discriminator is rejected before any
/// account is inspected.
#[derive(Clone, Copy, PartialEq, Eq, Debug, Structural)]
pub enum HandlerKind {
    /// Performs no state mutation and emits one diagnostic line containing
    /// the program identifier.
    Initialize,
    /// Performs no work and returns the given domain error code; the floor
    /// behavior of a failing handler.
    Fail(u64),
}

/// One registered instruction: its discriminator, the fixed width of its
/// payload, the account constraints its context requires, and the handler
/// it dispatches to. The table of these is fixed when the program is
/// built.
#[derive(Debug)]
pub struct InstructionDecl {
    /// The discriminator byte that selects this instruction.
    pub discriminator: u8,
    /// The exact number of payload bytes that must follow the
    /// discriminator.
    pub payload_len: usize,
    /// The declared constraint for each expected account slot.
    pub constraints: Vec<AccountConstraint>,
    /// The handler invoked once the context is validated.
    pub handler: HandlerKind,
}

/// The mathematical model of an [`InstructionDecl`].
pub struct DeclModel {
    pub discriminator: u8,
    pub payload_len: usize,
    pub constraints: Seq<ConstraintModel>,
    pub handler: HandlerKind,
}

impl View for InstructionDecl {
    type V = DeclModel;

    open spec fn view(&self) -> DeclModel {
        DeclModel {
            discriminator: self.discriminator,
            payload_len: self.payload_len,
            constraints: self.constraints.deep_view(),
            handler: self.handler,
        }
    }
}

impl DeepView for InstructionDecl {
    type V = DeclModel;

    open spec fn deep_view(&self) -> DeclModel {
        self.view()
    }
}

/// A deployed program: its fixed identity and its fixed instruction table.
#[derive(Debug)]
pub struct Program {
    /// The program's immutable identifier, established at deployment.
    pub id: Vec<u8>,
    /// The registered instructions, one per discriminator.
    pub instructions: Vec<InstructionDecl>,
}

/// The mathematical model of a [`Program`].
pub struct ProgramModel {
    pub id: Seq<u8>,
    pub instructions: Seq<DeclModel>,
}

impl View for Program {
    type V = ProgramModel;

    open spec fn view(&self) -> ProgramModel {
        ProgramModel { id: self.id@, instructions: self.instructions.deep_view() }
    }
}

/// A well-formed program: the identity has the fixed address length, every
/// discriminator is registered at most once, and every declared cross-slot
/// relation points at an earlier slot.
pub open spec fn program_wf(p: ProgramModel) -> bool {
    &&& is_address(p.id)
    &&& forall|i: int, j: int|
        0 <= i < j < p.instructions.len() ==> #[trigger] p.instructions[i].discriminator
            != #[trigger] p.instructions[j].discriminator
    &&& forall|i: int|
        0 <= i < p.instructions.len() ==> constraints_wf(#[trigger] p.instructions[i].constraints)
}

/// The tagged error a failed invocation surfaces to the caller.
#[derive(Clone, Copy, PartialEq, Eq, Debug, Structural)]
pub enum ProgramError {
    /// The discriminator is not registered.
    UnknownInstruction,
    /// The payload bytes do not decode to the handler's declared shape.
    MalformedPayload,
    /// An account slot failed its declared constraint.
    Validation(ValidationError),
    /// The handler itself failed with a domain-specific code, passed
    /// through unaltered.
    HandlerError(u64),
}

/// What one invocation returns outward: the emitted diagnostic lines on
/// success, or a tagged error.
pub type OutwardResult = Result<Vec<String>, ProgramError>;

/// The stable numeric code each error surfaces to the caller.
pub open spec fn code_model(e: ProgramError) -> u64 {
    match e {
        ProgramError::UnknownInstruction => 100,
        ProgramError::MalformedPayload => 101,
        ProgramError::Validation(v) => match v.reason {
            Reason::WrongOwner => 201,
            Reason::MissingSigner => 202,
            Reason::NotWritable => 203,
            Reason::DerivedAddressMismatch => 204,
            Reason::CrossSlotMismatch => 205,
            Reason::MissingAccount => 206,
        },
        ProgramError::HandlerError(c) => c,
    }
}

impl ProgramError {
    /// The stable numeric code of this error. A handler's domain code is
    /// passed through unaltered.
    pub fn code(&self) -> (c: u64)
        ensures
            c == code_model(*self),
    {
        match self {
            ProgramError::UnknownInstruction => 100,
            ProgramError::MalformedPayload => 101,
            ProgramError::Validation(v) => match v.reason {
                Reason::WrongOwner => 201,
                Reason::MissingSigner => 202,
                Reason::NotWritable => 203,
                Reason::DerivedAddressMismatch => 204,
                Reason::CrossSlotMismatch => 205,
                Reason::MissingAccount => 206,
            },
            ProgramError::HandlerError(c) => *c,
        }
    }
}

/// The index of the first registered instruction at or after `start` whose
/// discriminator is `d`, or `None` when no remaining declaration matches.
pub open spec fn first_match_from(decls: Seq<DeclModel>, d: u8, start: int) -> Option<int>
    decreases decls.len() - start,
{
    if start < 0 || start >= decls.len() {
        Option::None
    } else if decls[start].discriminator == d {
        Option::Some(start)
    } else {
        first_match_from(decls, d, start + 1)
    }
}

/// What a handler returns, as a pure function of the handler and the
/// program identity: the emitted diagnostic lines, or its domain error
/// wrapped unaltered.
pub open spec fn spec_run_handler(h: HandlerKind, pid: Seq<u8>) -> Result<
    Seq<Seq<char>>,
    ProgramError,
> {
    match h {
        HandlerKind::Initialize => Result::Ok(seq![greeting_model(pid)]),
        HandlerKind::Fail(c) => Result::Err(ProgramError::HandlerError(c)),
    }
}

/// What one invocation returns, as a pure function of the program, the
/// account list and the instruction bytes: an empty buffer or an
/// unregistered discriminator is `UnknownInstruction`; a payload whose
/// width is not the declared width is `MalformedPayload`; a failed slot
/// check surfaces that slot and reason unchanged; otherwise the handler
/// runs on the validated context.
pub open spec fn spec_handle(p: ProgramModel, accs: Seq<AccountModel>, data: Seq<u8>) -> Result<
    Seq<Seq<char>>,
    ProgramError,
> {
    if data.len() == 0 {
        Result::Err(ProgramError::UnknownInstruction)
    } else {
        match first_match_from(p.instructions, data[0], 0) {
            Option::None => Result::Err(ProgramError::UnknownInstruction),
            Option::Some(k) => {
                let decl = p.instructions[k];
                if data.len() - 1 != decl.payload_len {
                    Result::Err(ProgramError::MalformedPayload)
                } else {
                    match spec_validate(decl.constraints, accs, p.id) {
                        Result::Err((i, re)) => Result::Err(
                            ProgramError::Validation(
                                ValidationError { slot: i as usize, reason: re },
                            ),
                        ),
                        Result::Ok(_) => spec_run_handler(decl.handler, p.id),
                    }
                }
            },
        }
    }
}

/// Finds the registered instruction for a discriminator.
fn lookup(instructions: &Vec<InstructionDecl>, d: u8) -> (r: Option<usize>)
    ensures
        match r {
            Option::Some(k) => first_match_from(instructions.deep_view(), d, 0) == Option::Some(
                k as int,
            ) && k < instructions@.len() && instructions.deep_view()[k as int].discriminator == d,
            Option::None => first_match_from(instructions.deep_view(), d, 0) is None,
        },
{
    let ghost dv = instructions.deep_view();
    let n: usize = instructions.len();
    let mut i: usize = 0;
    while i < n
        invariant
            i <= n,
            n == instructions@.len(),
            dv == instructions.deep_view(),
            first_match_from(dv, d, 0) == first_match_from(dv, d, i as int),
        decreases n - i,
    {
        proof {
            assert(dv[i as int] == instructions@[i as int]@);
        }
        if instructions[i].discriminator == d {
            return Option::Some(i);
        }
        i = i + 1;
    }
    Option::None
}

/// Copies the payload bytes that follow the discriminator.
fn copy_payload(data: &Vec<u8>) -> (r: Vec<u8>)
    requires
        data@.len() >= 1,
    ensures
        r@ == data@.subrange(1, data@.len() as int),
{
    let n: usize = data.len();
    let mut r: Vec<u8> = Vec::new();
    let mut i: usize = 1;
    while i < n
        invariant
            1 <= i <= n,
            n == data@.len(),
            r@ =~= data@.subrange(1, i as int),
        decreases n - i,
    {
        r.push(data[i]);
        i = i + 1;
    }
    assert(r@ =~= data@.subrange(1, n as int));
    r
}

/// Runs the resolved handler on a validated context and maps its outcome —
/// success or domain error — uniformly into the outward result, without
/// altering the handler's error code.
pub fn run_handler(
    h: &HandlerKind,
    program_id: &Vec<u8>,
    ctx: &ValidatedContext,
    payload: &Vec<u8>,
) -> (r: OutwardResult)
    ensures
        ({
            let outcome = spec_run_handler(*h, program_id@);
            match r {
                Result::Ok(logs) => outcome is Ok && logs.deep_view() == outcome->Ok_0,
                Result::Err(e) => outcome is Err && e == outcome->Err_0,
            }
        }),
{
    match h {
        HandlerKind::Initialize => {
            match crate::program::initialize(program_id, ctx, payload) {
                Result::Ok(logs) => Result::Ok(logs),
                Result::Err(code) => Result::Err(ProgramError::HandlerError(code)),
            }
        },
        HandlerKind::Fail(code) => Result::Err(ProgramError::HandlerError(*code)),
    }
}

impl Program {
    /// The single entrypoint of one invocation: decodes the discriminator
    /// and payload, validates the declared account context, invokes the
    /// handler, and returns the outward result. A single invocation is
    /// linear; any failure short-circuits directly to the returned error.
    pub fn handle(&self, accounts: &Vec<RawAccountInput>, instruction_data: &Vec<u8>) -> (r:
        OutwardResult)
        requires
            program_wf(self@),
        ensures
            ({
                let outcome = spec_handle(self@, accounts.deep_view(), instruction_data@);
                match r {
                    Result::Ok(logs) => outcome is Ok && logs.deep_view() == outcome->Ok_0,
                    Result::Err(e) => outcome is Err && e == outcome->Err_0,
                }
            }),
    {
        if instruction_data.len() == 0 {
            return Result::Err(ProgramError::UnknownInstruction);
        }
        let d = instruction_data[0];
        let k: usize = match lookup(&self.instructions, d) {
            Option::None => {
                return Result::Err(ProgramError::UnknownInstruction);
            },
            Option::Some(k) => k,
        };
        proof {
            assert(self.instructions.deep_view()[k as int] == self.instructions@[k as int]@);
        }
        let decl = &self.instructions[k];
        if instruction_data.len() - 1 != decl.payload_len {
            return Result::Err(ProgramError::MalformedPayload);
        }
        let payload = copy_payload(instruction_data);
        proof {
            assert(constraints_wf(self@.instructions[k as int].constraints));
        }
        match validate(accounts, &decl.constraints, &self.id) {
            Result::Err(e) => {
                proof {
                    let ghost outcome = spec_validate(
                        decl.constraints.deep_view(),
                        accounts.deep_view(),
                        self.id@,
                    );
                    assert(outcome->Err_0 == (e.slot as int, e.reason));
                    assert((e.slot as int) as usize == e.slot);
                }
                Result::Err(ProgramError::Validation(e))
            },
            Result::Ok(ctx) => run_handler(&decl.handler, &self.id, &ctx, &payload),
        }
    }
}

/// An unknown discriminator — including an empty instruction buffer, which
/// holds none — always yields `UnknownInstruction`, before any account is
/// inspected: the outcome is the same for every account list.
pub proof fn lemma_unknown_instruction_before_accounts(
    p: ProgramModel,
    accs1: Seq<AccountModel>,
    accs2: Seq<AccountModel>,
    data: Seq<u8>,
)
    requires
        data.len() == 0 || first_match_from(p.instructions, data[0], 0) is None,
    ensures
        spec_handle(p, accs1, data) == Result::<Seq<Seq<char>>, ProgramError>::Err(
            ProgramError::UnknownInstruction,
        ),
        spec_handle(p, accs1, data) == spec_handle(p, accs2, data),
{
}

/// A payload whose width is not the declared width of a known
/// discriminator — truncated or oversized — always yields
/// `MalformedPayload`, and the handler is never invoked: the outcome is
/// the same for every account list.
pub proof fn lemma_malformed_payload_before_handler(
    p: ProgramModel,
    accs1: Seq<AccountModel>,
    accs2: Seq<AccountModel>,
    data: Seq<u8>,
    k: int,
)
    requires
        data.len() >= 1,
        first_match_from(p.instructions, data[0], 0) == Option::Some(k),
        data.len() - 1 != p.instructions[k].payload_len,
    ensures
        spec_handle(p, accs1, data) == Result::<Seq<Seq<char>>, ProgramError>::Err(
            ProgramError::MalformedPayload,
        ),
        spec_handle(p, accs1, data) == spec_handle(p, accs2, data),
{
}

} // verus!
