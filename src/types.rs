//! Plain data shared by all modules.

use vstd::prelude::*;

verus! {

/// Block numbers of the host chain.
pub type BlockNumber = u32;

/// Token amounts of the host chain.
pub type Balance = u128;

/// Voting weight.
pub type Vote = u64;

/// Keys of the storage tables: equality that executable code can decide.
pub trait TableKey: Sized {
    fn same(&self, other: &Self) -> (r: bool)
        ensures
            r == (*self == *other),
    ;
}

/// Decides equality of two 32-byte arrays.
pub fn bytes32_equal(a: &[u8; 32], b: &[u8; 32]) -> (r: bool)
    ensures
        r == (*a == *b),
{
    let mut i: usize = 0;
    while i < 32
        invariant
            0 <= i <= 32,
            forall|j: int| 0 <= j < i ==> a@[j] == b@[j],
        decreases 32 - i,
    {
        if a[i] != b[i] {
            assert(a@[i as int] != b@[i as int]);
            return false;
        }
        i = i + 1;
    }
    assert(a@ =~= b@);
    proof {
        vstd::array::axiom_array_ext_equal(*a, *b);
    }
    true
}

/// A 32-byte account address.
#[derive(Clone, Copy, Debug, PartialEq, Eq, Hash)]
pub struct AccountId(pub [u8; 32]);

impl TableKey for AccountId {
    fn same(&self, other: &Self) -> (r: bool) {
        bytes32_equal(&self.0, &other.0)
    }
}

/// A 256-bit hash; proposal ids and description hashes are hashes.
#[derive(Clone, Copy, Debug, PartialEq, Eq, Hash)]
pub struct Hash256(pub [u8; 32]);

impl TableKey for Hash256 {
    fn same(&self, other: &Self) -> (r: bool) {
        bytes32_equal(&self.0, &other.0)
    }
}

/// A vote is keyed by the voter and the proposal.
impl TableKey for (AccountId, Hash256) {
    fn same(&self, other: &Self) -> (r: bool) {
        self.0.same(&other.0) && self.1.same(&other.1)
    }
}

/// The id of a proposal: the hash of the proposal and of its description.
pub type ProposalId = Hash256;

} // verus!

verus! {

/// An action put to the vote: a call of `selector` on `callee` with `input`,
/// transferring `transferred_value`.
#[derive(Clone, Debug, PartialEq, Eq)]
pub struct Proposal {
    /// The contract that is called.
    pub callee: AccountId,
    /// The selector of the called function.
    pub selector: [u8; 4],
    /// The SCALE-encoded arguments of the call.
    pub input: Vec<u8>,
    /// The amount of chain balance that is transferred to the callee.
    pub transferred_value: Balance,
}

impl Default for Proposal {
    fn default() -> (r: Self)
        ensures
            r.callee.0@ == Seq::new(32, |i: int| 0u8),
            r.selector@ == Seq::new(4, |i: int| 0u8),
            r.input@.len() == 0,
            r.transferred_value == 0,
    {
        let r = Proposal {
            callee: AccountId([0u8; 32]),
            selector: [0u8; 4],
            input: Vec::new(),
            transferred_value: 0,
        };
        assert(r.callee.0@ =~= Seq::new(32, |i: int| 0u8));
        assert(r.selector@ =~= Seq::new(4, |i: int| 0u8));
        r
    }
}

/// Raw bytes handed to an outside call as they are, without a length prefix.
pub struct CallInput<'a>(pub &'a [u8]);

impl<'a> CallInput<'a> {
    /// The bytes that encode this input: the bytes themselves.
    pub fn encode_to(&self, dest: &mut Vec<u8>)
        ensures
            final(dest)@ == old(dest)@ + self.0@,
    {
        let mut i: usize = 0;
        while i < self.0.len()
            invariant
                0 <= i <= self.0@.len(),
                dest@ == old(dest)@ + self.0@.subrange(0, i as int),
            decreases self.0@.len() - i,
        {
            dest.push(self.0[i]);
            i = i + 1;
            assert(self.0@.subrange(0, i as int) =~= self.0@.subrange(0, i - 1 as int).push(
                self.0@[i - 1],
            ));
        }
        assert(self.0@.subrange(0, self.0@.len() as int) =~= self.0@);
    }
}

} // verus!
