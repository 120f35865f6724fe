//! Properties of permission resolution that hold for every configuration.
use vstd::prelude::*;
use crate::access::{lookup, presented, resolve, ApiAccessManager, ApiAccessPolicy, ApiKey, ApiPermissions};

verus! {

/// No credential in `keys` carries `token`.
pub open spec fn unregistered(keys: Seq<ApiKey>, token: Seq<char>) -> bool {
    forall|i: int| 0 <= i < keys.len() ==> #[trigger] keys[i].token() != token
}

/// A token that no credential carries finds no grant.
pub proof fn lemma_lookup_unregistered(keys: Seq<ApiKey>, token: Seq<char>)
    requires
        unregistered(keys, token),
    ensures
        lookup(keys, token) is None,
    decreases keys.len(),
{
    if keys.len() > 0 {
        assert(keys[0].token() != token);
        let rest = keys.drop_first();
        assert forall|i: int| 0 <= i < rest.len() implies #[trigger] rest[i].token() != token by {
            assert(rest[i] == keys[i + 1]);
        }
        lemma_lookup_unregistered(rest, token);
    }
}

/// A capability that the policy leaves open is granted to every caller,
/// whatever token is presented and whatever the credentials say.
pub proof fn lemma_open_capability_granted(
    policy: ApiAccessPolicy,
    keys: Seq<ApiKey>,
    token: Option<Seq<char>>,
)
    ensures
        !policy.restrict_connect ==> resolve(policy, keys, token).connect,
        !policy.restrict_host ==> resolve(policy, keys, token).host,
{
}

/// Where the policy restricts connect, a caller that presents no token, or a
/// token that no credential carries, may not connect.
pub proof fn lemma_restricted_connect_denied_unregistered(
    policy: ApiAccessPolicy,
    keys: Seq<ApiKey>,
    token: Seq<char>,
)
    requires
        policy.restrict_connect,
        unregistered(keys, token),
    ensures
        !resolve(policy, keys, Some(token)).connect,
        !resolve(policy, keys, None).connect,
{
    lemma_lookup_unregistered(keys, token);
}

/// Presenting no token is the same as presenting a token that no credential
/// carries, under every policy.
pub proof fn lemma_absent_token_same_as_unregistered(
    policy: ApiAccessPolicy,
    keys: Seq<ApiKey>,
    token: Seq<char>,
)
    requires
        unregistered(keys, token),
    ensures
        resolve(policy, keys, Some(token)) == resolve(policy, keys, None),
{
    lemma_lookup_unregistered(keys, token);
}

/// Asking a manager twice with the same token gives the same permissions:
/// the answer depends on the configuration and the token alone.
pub proof fn lemma_get_permissions_idempotent(
    m: &ApiAccessManager,
    key: Option<&str>,
    first: ApiPermissions,
    second: ApiPermissions,
)
    requires
        call_ensures(ApiAccessManager::get_permissions, (m, key), first),
        call_ensures(ApiAccessManager::get_permissions, (m, key), second),
    ensures
        first == second,
        first == resolve(m.policy(), m.keys(), presented(key)),
{
}

} // verus!
