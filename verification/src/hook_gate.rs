//! Guards transfers of a hook-bearing asset: a transfer passes only when a
//! trusted authorizer is presented with it.

use crate::errors::AmmError;
use crate::identity::{contains_identity, Identity};
use vstd::prelude::*;

verus! {

/// Some presented identity is on the whitelist.
pub open spec fn has_trusted_authorizer(whitelist: Seq<Identity>, presented: Seq<Identity>) -> bool {
    exists|i: int| 0 <= i < presented.len() && #[trigger] whitelist.contains(presented[i])
}

/// No presented identity is on the whitelist.
pub open spec fn disjoint_from_whitelist(whitelist: Seq<Identity>, presented: Seq<Identity>) -> bool {
    forall|i: int| 0 <= i < presented.len() ==> !#[trigger] whitelist.contains(presented[i])
}

/// Whether a transfer may pass: always for an asset without a hook,
/// and for an asset with one only when a trusted authorizer is presented.
pub open spec fn transfer_allowed(
    asset_carries_hook: bool,
    whitelist: Seq<Identity>,
    presented: Seq<Identity>,
) -> bool {
    asset_carries_hook ==> has_trusted_authorizer(whitelist, presented)
}

/// A trusted authorizer is presented exactly when the presented identities
/// and the whitelist, taken as sets, have a member in common.
pub proof fn lemma_trusted_iff_sets_meet(whitelist: Seq<Identity>, presented: Seq<Identity>)
    ensures
        has_trusted_authorizer(whitelist, presented) <==> !whitelist.to_set().disjoint(
            presented.to_set(),
        ),
        disjoint_from_whitelist(whitelist, presented) <==> whitelist.to_set().disjoint(
            presented.to_set(),
        ),
        disjoint_from_whitelist(whitelist, presented) <==> !has_trusted_authorizer(
            whitelist,
            presented,
        ),
{
    let w = whitelist.to_set();
    let p = presented.to_set();
    if has_trusted_authorizer(whitelist, presented) {
        let i: int = choose|i: int|
            0 <= i < presented.len() && #[trigger] whitelist.contains(presented[i]);
        assert(presented.contains(presented[i]));
        assert(w.contains(presented[i]) && p.contains(presented[i]));
    }
    if !w.disjoint(p) {
        let a: Identity = choose|a: Identity| w.contains(a) && p.contains(a);
        assert(presented.contains(a));
        let i: int = choose|i: int| 0 <= i < presented.len() && presented[i] == a;
        assert(whitelist.contains(presented[i]));
    }
}

/// Decides whether a transfer may go ahead.
///
/// Only who is present counts: an asset without a hook always
/// passes, an asset with a hook passes when at least one of
/// `presented_authorizers` is on `whitelist`. Amounts play no part.
pub fn authorize_transfer(
    asset_carries_hook: bool,
    whitelist: &[Identity],
    presented_authorizers: &[Identity],
) -> (allowed: bool)
    ensures
        allowed == transfer_allowed(asset_carries_hook, whitelist@, presented_authorizers@),
        !asset_carries_hook ==> allowed,
        asset_carries_hook && disjoint_from_whitelist(whitelist@, presented_authorizers@)
            ==> !allowed,
{
    if !asset_carries_hook {
        return true;
    }
    let mut i: usize = 0;
    while i < presented_authorizers.len()
        invariant
            i <= presented_authorizers.len(),
            forall|k: int| 0 <= k < i ==> !#[trigger] whitelist@.contains(presented_authorizers@[k]),
        decreases presented_authorizers.len() - i,
    {
        if contains_identity(whitelist, &presented_authorizers[i]) {
            return true;
        }
        i += 1;
    }
    false
}

/// Checks a transfer against the pool's whitelist and names the failure.
///
/// `remaining_accounts` are the identities handed in with the request.
pub fn validate_token_2022_transfer(
    asset_carries_hook: bool,
    hook_whitelist: &[Identity],
    remaining_accounts: &[Identity],
) -> (result: Result<(), AmmError>)
    ensures
        result == (if transfer_allowed(asset_carries_hook, hook_whitelist@, remaining_accounts@) {
            Ok::<(), AmmError>(())
        } else {
            Err::<(), AmmError>(AmmError::HookNotWhitelisted)
        }),
{
    if authorize_transfer(asset_carries_hook, hook_whitelist, remaining_accounts) {
        Ok(())
    } else {
        Err(AmmError::HookNotWhitelisted)
    }
}

} // verus!
