use vstd::prelude::*;
use crate::error::ErrorCode;
use crate::pubkey::Pubkey;

verus! {

/// An account that holds lamports.
#[derive(Clone, Copy, Debug, PartialEq, Eq)]
pub struct Wallet {
    pub key: Pubkey,
    pub lamports: u64,
}

/// One leg of a settlement: `lamports` handed from `from` to `to`.
#[derive(Clone, Copy, Debug, PartialEq, Eq)]
pub struct Transfer {
    pub from: Pubkey,
    pub to: Pubkey,
    pub lamports: u64,
}

impl Wallet {
    /// The wallet with `lamports` more.
    pub open spec fn credited(self, lamports: int) -> Wallet {
        Wallet { key: self.key, lamports: (self.lamports + lamports) as u64 }
    }

    /// The wallet with `lamports` less.
    pub open spec fn debited(self, lamports: int) -> Wallet {
        Wallet { key: self.key, lamports: (self.lamports - lamports) as u64 }
    }
}

/// Moves `lamports` from one wallet to the other, or does nothing when the
/// payer holds less than that. A transfer of nothing always succeeds. The two
/// balances together must fit a `u64`, so that no transfer between the two can
/// overflow.
pub fn transfer(from: &mut Wallet, to: &mut Wallet, lamports: u64) -> (r: Result<
    Transfer,
    ErrorCode,
>)
    requires
        old(from).lamports + old(to).lamports <= u64::MAX,
    ensures
        r is Ok <==> old(from).lamports >= lamports,
        r matches Ok(leg) ==> {
            &&& *final(from) == old(from).debited(lamports as int)
            &&& *final(to) == old(to).credited(lamports as int)
            &&& leg == (Transfer { from: old(from).key, to: old(to).key, lamports })
        },
        r matches Err(e) ==> {
            &&& e == ErrorCode::InsufficientFunds
            &&& *final(from) == *old(from)
            &&& *final(to) == *old(to)
        },
{
    if from.lamports < lamports {
        return Err(ErrorCode::InsufficientFunds);
    }
    from.lamports = from.lamports - lamports;
    to.lamports = to.lamports + lamports;
    Ok(Transfer { from: from.key, to: to.key, lamports })
}

} // verus!
