use vstd::prelude::*;

use crate::pubkey::Pubkey;

verus! {

/// The fixed first seed of every entry's derived address: `b"client1"`.
pub open spec fn seed_prefix() -> Seq<u8> {
    seq![99u8, 108u8, 105u8, 101u8, 110u8, 116u8, 49u8]
}

/// The capability with which the system, not the depositor, authorizes
/// value leaving an entry: the seeds of the entry's derived address.
#[derive(Clone, Copy, Debug)]
pub struct EntryAuthority {
    pub owner: Pubkey,
    pub bump: u8,
}

impl EntryAuthority {
    /// The signer seeds: the prefix, the owner's key, and the bump byte.
    pub fn signer_seeds(&self) -> (r: Vec<Vec<u8>>)
        ensures
            r@.len() == 3,
            r@[0]@ == seed_prefix(),
            r@[1]@ == self.owner@,
            r@[2]@ == seq![self.bump],
    {
        let prefix: Vec<u8> = vec![99u8, 108u8, 105u8, 101u8, 110u8, 116u8, 49u8];
        let mut key: Vec<u8> = Vec::new();
        let mut i: usize = 0;
        while i < 32
            invariant
                0 <= i <= 32,
                self.owner@.len() == 32,
                key@ == self.owner@.subrange(0, i as int),
            decreases 32 - i,
        {
            key.push(self.owner.bytes[i]);
            i = i + 1;
        }
        assert(key@ =~= self.owner@);
        let bump: Vec<u8> = vec![self.bump];
        let r: Vec<Vec<u8>> = vec![prefix, key, bump];
        assert(r@[0]@ =~= seed_prefix());
        assert(r@[2]@ =~= seq![self.bump]);
        r
    }
}

/// A movement of value that an accepted request calls for. The caller carries
/// it out; if it fails, the whole request fails and the entry is restored.
#[derive(Clone, Copy, Debug)]
pub enum Transfer {
    /// `amount` from the user's wallet into the entry, signed by the user.
    IntoEntry { user: Pubkey, amount: u64 },
    /// `amount` from the entry back to the user's wallet, signed by the
    /// entry's own authority.
    OutOfEntry { user: Pubkey, amount: u64, authority: EntryAuthority },
}

} // verus!
