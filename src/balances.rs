//! Aggregation of concurrent balance queries: all balances, or every error.
use vstd::prelude::*;

verus! {

/// A wallet address and its balance in minor units.
#[derive(Debug)]
pub struct WalletBalance {
    pub wallet: String,
    pub lamports: u64,
}

pub open spec fn balances_of(s: Seq<Result<WalletBalance, String>>) -> Seq<WalletBalance>
    decreases s.len(),
{
    if s.len() == 0 {
        Seq::empty()
    } else {
        match s.last() {
            Ok(b) => balances_of(s.drop_last()).push(b),
            Err(_) => balances_of(s.drop_last()),
        }
    }
}

pub open spec fn errors_of(s: Seq<Result<WalletBalance, String>>) -> Seq<String>
    decreases s.len(),
{
    if s.len() == 0 {
        Seq::empty()
    } else {
        match s.last() {
            Ok(_) => errors_of(s.drop_last()),
            Err(e) => errors_of(s.drop_last()).push(e),
        }
    }
}

/// Every balance when all queries succeeded; otherwise every error, in the order given.
pub fn collect_balances(results: Vec<Result<WalletBalance, String>>) -> (r: Result<Vec<WalletBalance>, Vec<String>>)
    ensures
        errors_of(results@).len() == 0 ==> (r matches Ok(v) && v@ == balances_of(results@)),
        errors_of(results@).len() > 0 ==> (r matches Err(e) && e@ == errors_of(results@)),
{
    let ghost all = results@;
    let mut rest = results;
    let total = rest.len();
    let mut balances: Vec<WalletBalance> = Vec::new();
    let mut errors: Vec<String> = Vec::new();
    let mut k: usize = 0;
    while rest.len() > 0
        invariant
            all.len() == total,
            k + rest@.len() == all.len(),
            rest@ == all.subrange(k as int, all.len() as int),
            balances@ == balances_of(all.subrange(0, k as int)),
            errors@ == errors_of(all.subrange(0, k as int)),
        decreases rest@.len(),
    {
        let item = rest.remove(0);
        proof {
            assert(item == all[k as int]);
            assert(all.subrange(0, k + 1).drop_last() =~= all.subrange(0, k as int));
            assert(rest@ =~= all.subrange(k + 1, all.len() as int));
        }
        match item {
            Ok(b) => balances.push(b),
            Err(e) => errors.push(e),
        }
        k = k + 1;
    }
    proof {
        assert(all.subrange(0, k as int) =~= all);
    }
    if errors.len() > 0 {
        Err(errors)
    } else {
        Ok(balances)
    }
}

} // verus!
