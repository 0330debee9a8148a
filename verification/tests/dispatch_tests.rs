use anchor::account::RawAccountInput;
use anchor::constraint::AccountConstraint;
use anchor::constraint::Reason;
use anchor::constraint::Relation;
use anchor::constraint::ValidationError;
use anchor::dispatch::HandlerKind;
use anchor::dispatch::InstructionDecl;
use anchor::dispatch::Program;
use anchor::dispatch::ProgramError;
use anchor::log::hex_string;
use anchor::program::anchor_program;
use anchor::program::declared_id;

fn addr(b: u8) -> Vec<u8> {
    vec![b; 32]
}

fn account(address: u8, is_signer: bool) -> RawAccountInput {
    RawAccountInput {
        address: addr(address),
        owner: addr(9),
        is_signer,
        is_writable: false,
        lamports: 1_000,
        data: vec![],
    }
}

fn free_slot(name: &str) -> AccountConstraint {
    AccountConstraint {
        name: String::from(name),
        owner: None,
        require_signer: false,
        require_writable: false,
        relation: Relation::Unconstrained,
    }
}

fn single_instruction_program(constraints: Vec<AccountConstraint>, handler: HandlerKind) -> Program {
    Program {
        id: addr(7),
        instructions: vec![InstructionDecl {
            discriminator: 0x00,
            payload_len: 0,
            constraints,
            handler,
        }],
    }
}

#[test]
fn unknown_discriminator_is_rejected_before_accounts() {
    let program = anchor_program();
    let data = vec![0x07];
    let none: Vec<RawAccountInput> = vec![];
    let some = vec![account(1, true), account(2, false)];
    let r1 = program.handle(&none, &data);
    let r2 = program.handle(&some, &data);
    assert_eq!(r1.unwrap_err(), ProgramError::UnknownInstruction);
    assert_eq!(r2.unwrap_err(), ProgramError::UnknownInstruction);
}

#[test]
fn empty_instruction_buffer_is_an_unknown_instruction() {
    let program = anchor_program();
    let r = program.handle(&vec![], &vec![]);
    assert_eq!(r.unwrap_err(), ProgramError::UnknownInstruction);
}

#[test]
fn truncated_payload_is_malformed_and_never_reaches_the_handler() {
    let program = Program {
        id: addr(7),
        instructions: vec![InstructionDecl {
            discriminator: 0x01,
            payload_len: 4,
            constraints: vec![],
            handler: HandlerKind::Fail(99),
        }],
    };
    // Two payload bytes where four are declared: rejected, and the
    // always-failing handler is never invoked.
    let r = program.handle(&vec![], &vec![0x01, 0xaa, 0xbb]);
    assert_eq!(r.unwrap_err(), ProgramError::MalformedPayload);
    // Oversized payloads do not decode to the declared shape either.
    let r = program.handle(&vec![], &vec![0x01, 0xaa, 0xbb, 0xcc, 0xdd, 0xee]);
    assert_eq!(r.unwrap_err(), ProgramError::MalformedPayload);
    // The exact declared width reaches the handler.
    let r = program.handle(&vec![], &vec![0x01, 0xaa, 0xbb, 0xcc, 0xdd]);
    assert_eq!(r.unwrap_err(), ProgramError::HandlerError(99));
}

#[test]
fn initialize_dispatch_succeeds_and_greets_with_the_program_id() {
    let program = anchor_program();
    let logs = program.handle(&vec![], &vec![0x00]).unwrap();
    assert_eq!(logs.len(), 1);
    assert!(logs[0].starts_with("Greetings from: "));
    assert!(logs[0].contains(&hex_string(&declared_id())));
}

#[test]
fn missing_signer_on_slot_zero_surfaces_through_dispatch() {
    let mut payer = free_slot("payer");
    payer.require_signer = true;
    let program = single_instruction_program(vec![payer], HandlerKind::Initialize);
    let accounts = vec![account(1, false)];
    let r = program.handle(&accounts, &vec![0x00]);
    assert_eq!(
        r.unwrap_err(),
        ProgramError::Validation(ValidationError { slot: 0, reason: Reason::MissingSigner })
    );
}

#[test]
fn derived_address_mismatch_on_slot_one_surfaces_through_dispatch() {
    let mut vault = free_slot("vault");
    vault.relation = Relation::DerivedFromSeeds(vec![b"vault".to_vec()]);
    let program = single_instruction_program(vec![free_slot("payer"), vault], HandlerKind::Initialize);
    let accounts = vec![account(1, true), account(2, false)];
    let r = program.handle(&accounts, &vec![0x00]);
    assert_eq!(
        r.unwrap_err(),
        ProgramError::Validation(ValidationError { slot: 1, reason: Reason::DerivedAddressMismatch })
    );
}

#[test]
fn handler_domain_errors_pass_through_unaltered() {
    let program = single_instruction_program(vec![], HandlerKind::Fail(42));
    let r = program.handle(&vec![], &vec![0x00]);
    let err = r.unwrap_err();
    assert_eq!(err, ProgramError::HandlerError(42));
    assert_eq!(err.code(), 42);
}

#[test]
fn error_codes_are_stable() {
    assert_eq!(ProgramError::UnknownInstruction.code(), 100);
    assert_eq!(ProgramError::MalformedPayload.code(), 101);
    let v = |reason| ProgramError::Validation(ValidationError { slot: 0, reason });
    assert_eq!(v(Reason::WrongOwner).code(), 201);
    assert_eq!(v(Reason::MissingSigner).code(), 202);
    assert_eq!(v(Reason::NotWritable).code(), 203);
    assert_eq!(v(Reason::DerivedAddressMismatch).code(), 204);
    assert_eq!(v(Reason::CrossSlotMismatch).code(), 205);
    assert_eq!(v(Reason::MissingAccount).code(), 206);
    assert_eq!(ProgramError::HandlerError(7).code(), 7);
}

#[test]
fn dispatch_resolves_among_several_registered_instructions() {
    let program = Program {
        id: addr(7),
        instructions: vec![
            InstructionDecl {
                discriminator: 0x00,
                payload_len: 0,
                constraints: vec![],
                handler: HandlerKind::Initialize,
            },
            InstructionDecl {
                discriminator: 0x01,
                payload_len: 0,
                constraints: vec![],
                handler: HandlerKind::Fail(5),
            },
        ],
    };
    assert!(program.handle(&vec![], &vec![0x00]).is_ok());
    assert_eq!(program.handle(&vec![], &vec![0x01]).unwrap_err(), ProgramError::HandlerError(5));
    assert_eq!(program.handle(&vec![], &vec![0x02]).unwrap_err(), ProgramError::UnknownInstruction);
}
