//! Program-derived addresses: a deterministic address computed from the
//! program identifier and a list of seed byte strings, used to prove that an
//! account is program-controlled without a private key.
//!
//! The derivation folds the program id and then each seed in declared order
//! into a fixed-length state, one byte at a time. It is a pure function of
//! its arguments, so the validator can recompute it and require byte-exact
//! equality.

use vstd::prelude::*;

use crate::account::ADDRESS_LEN;
use crate::account::is_address;

verus! {

/// The all-zero derivation state.
pub open spec fn zero_state() -> Seq<u8> {
    Seq::new(ADDRESS_LEN as nat, |i: int| 0u8)
}

/// Folds one piece of the message into `state`, one byte at a time: the
/// byte at offset `pos` within the piece is mixed into state position
/// `pos % 32`, together with the low bits of the offset, so that the same
/// byte at different offsets contributes differently.
pub open spec fn fold_piece(state: Seq<u8>, bytes: Seq<u8>, pos: int) -> Seq<u8>
    decreases bytes.len(),
{
    if bytes.len() == 0 {
        state
    } else {
        let p = pos % (ADDRESS_LEN as int);
        let mixed = state[p] ^ bytes[0] ^ ((pos % 256) as u8);
        fold_piece(state.update(p, mixed), bytes.drop_first(), pos + 1)
    }
}

/// Folds every seed into `state`, in declared order, each seed folded from
/// offset zero.
pub open spec fn fold_seeds(state: Seq<u8>, seeds: Seq<Seq<u8>>) -> Seq<u8>
    decreases seeds.len(),
{
    if seeds.len() == 0 {
        state
    } else {
        fold_seeds(fold_piece(state, seeds[0], 0), seeds.drop_first())
    }
}

/// The derived address: the program id folded into the zero state, then
/// every seed folded in after it.
pub open spec fn derived_address_model(pid: Seq<u8>, seeds: Seq<Seq<u8>>) -> Seq<u8> {
    fold_seeds(fold_piece(zero_state(), pid, 0), seeds)
}

/// Folds one byte of a piece into an in-progress derivation state.
fn mix_byte(state: &mut Vec<u8>, b: u8, pos: usize)
    requires
        old(state)@.len() == ADDRESS_LEN,
    ensures
        final(state)@ == ({
            let p = (pos as int) % (ADDRESS_LEN as int);
            old(state)@.update(p, old(state)@[p] ^ b ^ (((pos as int) % 256) as u8))
        }),
{
    let p: usize = pos % ADDRESS_LEN;
    let low: u8 = (pos % 256) as u8;
    let mixed: u8 = state[p] ^ b ^ low;
    state.set(p, mixed);
}

/// Folds one whole piece of the message into the derivation state.
fn fold_piece_into(state: &mut Vec<u8>, bytes: &Vec<u8>)
    requires
        old(state)@.len() == ADDRESS_LEN,
    ensures
        final(state)@ == fold_piece(old(state)@, bytes@, 0),
        final(state)@.len() == ADDRESS_LEN,
{
    let n: usize = bytes.len();
    let mut i: usize = 0;
    proof {
        assert(bytes@.skip(0) =~= bytes@);
    }
    while i < n
        invariant
            i <= n,
            n == bytes@.len(),
            state@.len() == ADDRESS_LEN,
            fold_piece(old(state)@, bytes@, 0) == fold_piece(state@, bytes@.skip(i as int), i as int),
        decreases n - i,
    {
        proof {
            assert(bytes@.skip(i as int)[0] == bytes@[i as int]);
            assert(bytes@.skip(i as int).drop_first() =~= bytes@.skip(i as int + 1));
        }
        mix_byte(state, bytes[i], i);
        i = i + 1;
    }
    proof {
        assert(bytes@.skip(n as int) =~= Seq::<u8>::empty());
    }
}

/// Computes the program-derived address for `program_id` and `seeds`.
pub fn derive_address(program_id: &Vec<u8>, seeds: &Vec<Vec<u8>>) -> (r: Vec<u8>)
    ensures
        r@ == derived_address_model(program_id@, seeds.deep_view()),
        is_address(r@),
{
    let mut state: Vec<u8> = Vec::new();
    let mut k: usize = 0;
    while k < ADDRESS_LEN
        invariant
            k <= ADDRESS_LEN,
            state@ =~= zero_state().subrange(0, k as int),
        decreases ADDRESS_LEN - k,
    {
        state.push(0u8);
        k = k + 1;
    }
    assert(state@ =~= zero_state());

    fold_piece_into(&mut state, program_id);

    let ghost seeds_model: Seq<Seq<u8>> = seeds.deep_view();
    let n: usize = seeds.len();
    let mut i: usize = 0;
    proof {
        assert(seeds_model.skip(0) =~= seeds_model);
    }
    while i < n
        invariant
            i <= n,
            n == seeds@.len(),
            seeds_model == seeds.deep_view(),
            state@.len() == ADDRESS_LEN,
            derived_address_model(program_id@, seeds_model) == fold_seeds(
                state@,
                seeds_model.skip(i as int),
            ),
        decreases n - i,
    {
        proof {
            assert(seeds_model.skip(i as int)[0] == seeds_model[i as int]);
            assert(seeds_model[i as int] == seeds@[i as int]@);
            assert(seeds_model.skip(i as int).drop_first() =~= seeds_model.skip(i as int + 1));
        }
        fold_piece_into(&mut state, &seeds[i]);
        i = i + 1;
    }
    proof {
        assert(seeds_model.skip(n as int) =~= Seq::<Seq<u8>>::empty());
    }
    state
}

} // verus!
