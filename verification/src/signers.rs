//! Who has to sign.
//!
//! A signer list holds each address once, in the order in which it was first
//! asked for. The signers of a call are the addresses of its accounts that
//! are flagged as signers, each once.

use crate::address::lemma_address_by_bytes;
use crate::address::Address;
use crate::lock_instructions::flagged_at;
use crate::lock_instructions::signed_by;
use crate::lock_instructions::AccountMeta;
use crate::lock_instructions::Instruction;
use vstd::prelude::*;

verus! {

/// The signer list with `who` in it: unchanged if `who` is there already,
/// else with `who` at its end.
pub open spec fn with_signer(signers: Seq<Address>, who: Address) -> Seq<Address> {
    if signers.contains(who) {
        signers
    } else {
        signers.push(who)
    }
}

/// Makes sure that `who` is among the signers, once.
pub fn register_signer(signers: &mut Vec<Address>, who: Address)
    ensures
        final(signers)@ == with_signer(old(signers)@, who),
{
    let mut i: usize = 0;
    while i < signers.len()
        invariant
            i <= signers@.len(),
            signers@ == old(signers)@,
            forall|j: int| 0 <= j < i ==> signers@[j] != who,
        decreases signers@.len() - i,
    {
        if signers[i] == who {
            proof {
                lemma_address_by_bytes(signers@[i as int], who);
            }
            return ;
        }
        i = i + 1;
    }
    signers.push(who);
}

/// Registering a signer keeps a list without repetitions free of them, and
/// the signer is in the list afterwards.
pub proof fn lemma_with_signer_distinct(signers: Seq<Address>, who: Address)
    ensures
        with_signer(signers, who).contains(who),
        signers.no_duplicates() ==> with_signer(signers, who).no_duplicates(),
        forall|other: Address| signers.contains(other) ==> with_signer(signers, who).contains(other),
{
    let after = with_signer(signers, who);
    if signers.contains(who) {
    } else {
        assert(after[signers.len() as int] == who);
        assert forall|other: Address| signers.contains(other) implies after.contains(other) by {
            let i = choose|i: int| 0 <= i < signers.len() && signers[i] == other;
            assert(after[i] == other);
        }
    }
}

/// The signer list with each of `more` in it, taken in order.
pub open spec fn with_signers(signers: Seq<Address>, more: Seq<Address>) -> Seq<Address>
    decreases more.len(),
{
    if more.len() == 0 {
        signers
    } else {
        with_signer(with_signers(signers, more.drop_last()), more.last())
    }
}

/// Merges the signers that a step or a call introduces into a list, each
/// once.
pub fn merge_signers(signers: &mut Vec<Address>, more: &Vec<Address>)
    ensures
        final(signers)@ == with_signers(old(signers)@, more@),
{
    let mut i: usize = 0;
    while i < more.len()
        invariant
            i <= more@.len(),
            signers@ == with_signers(old(signers)@, more@.subrange(0, i as int)),
        decreases more@.len() - i,
    {
        proof {
            let next = more@.subrange(0, i + 1);
            assert(next.drop_last() =~= more@.subrange(0, i as int));
            assert(next.last() == more@[i as int]);
        }
        register_signer(signers, more[i]);
        i = i + 1;
    }
    assert(more@.subrange(0, i as int) =~= more@);
}

/// The signers of a list of accounts: the addresses that are flagged as
/// signers, each once, in the order of their first appearance.
pub open spec fn signers_of(accounts: Seq<AccountMeta>) -> Seq<Address>
    decreases accounts.len(),
{
    if accounts.len() == 0 {
        Seq::empty()
    } else if accounts.last().is_signer {
        with_signer(signers_of(accounts.drop_last()), accounts.last().pubkey)
    } else {
        signers_of(accounts.drop_last())
    }
}

/// The signer list of a call holds no address twice, and holds an address
/// exactly if an account with that address is flagged as a signer.
pub proof fn lemma_signers_of(accounts: Seq<AccountMeta>)
    ensures
        signers_of(accounts).no_duplicates(),
        forall|who: Address|
            signers_of(accounts).contains(who) <==> exists|i: int|
                0 <= i < accounts.len() && (#[trigger] accounts[i]).is_signer && accounts[i].pubkey
                    == who,
    decreases accounts.len(),
{
    if accounts.len() > 0 {
        let front = accounts.drop_last();
        let last = accounts.last();
        let before = signers_of(front);
        let all = signers_of(accounts);
        lemma_signers_of(front);
        lemma_with_signer_distinct(before, last.pubkey);
        assert forall|who: Address| all.contains(who) implies exists|i: int|
            0 <= i < accounts.len() && (#[trigger] accounts[i]).is_signer && accounts[i].pubkey
                == who by {
            if before.contains(who) {
                let i = choose|i: int|
                    0 <= i < front.len() && (#[trigger] front[i]).is_signer && front[i].pubkey
                        == who;
                assert(accounts[i] == front[i]);
            } else {
                let at = choose|at: int| 0 <= at < all.len() && all[at] == who;
                assert(last.is_signer && all == before.push(last.pubkey));
                assert(at == before.len());
                assert(accounts[accounts.len() - 1] == last);
            }
        }
        assert forall|who: Address|
            (exists|i: int|
                0 <= i < accounts.len() && (#[trigger] accounts[i]).is_signer && accounts[i].pubkey
                    == who) implies all.contains(who) by {
            let i = choose|i: int|
                0 <= i < accounts.len() && (#[trigger] accounts[i]).is_signer && accounts[i].pubkey
                    == who;
            if i < front.len() {
                assert(front[i] == accounts[i]);
                assert(before.contains(who));
            }
        }
    }
}

/// A call whose two flagged entries are of two different addresses has
/// exactly those two signers.
pub proof fn lemma_two_signers(call: Instruction, first: Address, second: Address)
    requires
        signed_by(call@, first@, second@),
        first != second,
    ensures
        signers_of(call.accounts@).len() == 2,
        signers_of(call.accounts@).contains(first),
        signers_of(call.accounts@).contains(second),
{
    let accounts = call.accounts@;
    let refs = call@.accounts;
    let signers = signers_of(accounts);
    lemma_signers_of(accounts);
    let (i, j) = choose|i: int, j: int| #[trigger] flagged_at(call@, i, j, first@, second@);
    assert(refs[i].is_signer && refs[j].is_signer);
    lemma_address_by_bytes(accounts[i].pubkey, first);
    lemma_address_by_bytes(accounts[j].pubkey, second);
    assert(signers.contains(first));
    assert(signers.contains(second));
    assert forall|k: int| 0 <= k < signers.len() implies signers[k] == first || signers[k]
        == second by {
        assert(signers.contains(signers[k]));
        let at = choose|at: int|
            0 <= at < accounts.len() && (#[trigger] accounts[at]).is_signer && accounts[at].pubkey
                == signers[k];
        assert(refs[at].is_signer);
        if at == i {
            lemma_address_by_bytes(accounts[at].pubkey, first);
        } else {
            lemma_address_by_bytes(accounts[at].pubkey, second);
        }
    }
    let a = choose|a: int| 0 <= a < signers.len() && signers[a] == first;
    let b = choose|b: int| 0 <= b < signers.len() && signers[b] == second;
    assert(a != b);
    if signers.len() > 2 {
        assert(signers[0] == first || signers[0] == second);
        assert(signers[1] == first || signers[1] == second);
        assert(signers[2] == first || signers[2] == second);
    }
}

/// Lists the addresses that have to sign a call, each once.
pub fn required_signers(call: &Instruction) -> (signers: Vec<Address>)
    ensures
        signers@ == signers_of(call.accounts@),
{
    let mut signers: Vec<Address> = Vec::new();
    let mut i: usize = 0;
    while i < call.accounts.len()
        invariant
            i <= call.accounts@.len(),
            signers@ == signers_of(call.accounts@.subrange(0, i as int)),
        decreases call.accounts@.len() - i,
    {
        proof {
            let next = call.accounts@.subrange(0, i + 1);
            assert(next.drop_last() =~= call.accounts@.subrange(0, i as int));
            assert(next.last() == call.accounts@[i as int]);
        }
        if call.accounts[i].is_signer {
            register_signer(&mut signers, call.accounts[i].pubkey);
        }
        i = i + 1;
    }
    assert(call.accounts@.subrange(0, i as int) =~= call.accounts@);
    signers
}

} // verus!
