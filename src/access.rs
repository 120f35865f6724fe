use vstd::prelude::*;

verus! {

/// Two independent capabilities, each granted or denied.
#[derive(Debug, Clone, Copy, PartialEq, Eq, Structural)]
pub struct ApiPermissions {
    pub connect: bool,
    pub host: bool,
}

impl Default for ApiPermissions {
    /// Nothing is granted.
    fn default() -> (r: Self)
        ensures
            r == (ApiPermissions { connect: false, host: false }),
    {
        Self::none()
    }
}

impl ApiPermissions {
    pub fn none() -> (r: Self)
        ensures
            r == (ApiPermissions { connect: false, host: false }),
    {
        ApiPermissions { connect: false, host: false }
    }

    pub fn connect() -> (r: Self)
        ensures
            r == (ApiPermissions { connect: true, host: false }),
    {
        ApiPermissions { connect: true, host: false }
    }

    pub fn host() -> (r: Self)
        ensures
            r == (ApiPermissions { connect: false, host: true }),
    {
        ApiPermissions { connect: false, host: true }
    }

    pub fn all() -> (r: Self)
        ensures
            r == (ApiPermissions { connect: true, host: true }),
    {
        ApiPermissions { connect: true, host: true }
    }
}

/// The grant of a credential whose declaration gives the flags `connect` and
/// `host` (`None` where a flag is not written): connect only where neither is
/// written, and otherwise each flag as written, an unwritten one denied.
pub open spec fn declared_grant(connect: Option<bool>, host: Option<bool>) -> ApiPermissions {
    if connect is None && host is None {
        ApiPermissions { connect: true, host: false }
    } else {
        ApiPermissions { connect: connect == Some(true), host: host == Some(true) }
    }
}

/// One registered credential: its token and what it may unlock.
#[derive(Debug, Clone)]
pub struct ApiKey {
    key: String,
    permissions: ApiPermissions,
}

impl ApiKey {
    /// The credential's token.
    pub closed spec fn token(&self) -> Seq<char> {
        self.key@
    }

    /// The capabilities this credential may unlock.
    pub closed spec fn grant(&self) -> ApiPermissions {
        self.permissions
    }

    pub fn new(key: String, permissions: ApiPermissions) -> (r: Self)
        ensures
            r.token() == key@,
            r.grant() == permissions,
    {
        ApiKey { key, permissions }
    }

    /// A credential declared with its token alone gets the default grant,
    /// connect without host.
    pub fn with_default_grant(key: String) -> (r: Self)
        ensures
            r.token() == key@,
            r.grant() == (ApiPermissions { connect: true, host: false }),
    {
        ApiKey { key, permissions: ApiPermissions::connect() }
    }

    /// A credential as declared in configuration, where either flag may be
    /// left out.
    pub fn from_declared(key: String, connect: Option<bool>, host: Option<bool>) -> (r: Self)
        ensures
            r.token() == key@,
            r.grant() == declared_grant(connect, host),
    {
        let permissions = match (connect, host) {
            (None, None) => ApiPermissions::connect(),
            _ => ApiPermissions {
                connect: match connect {
                    Some(c) => c,
                    None => false,
                },
                host: match host {
                    Some(h) => h,
                    None => false,
                },
            },
        };
        ApiKey { key, permissions }
    }

    pub fn key(&self) -> (r: &str)
        ensures
            r@ == self.token(),
    {
        self.key.as_str()
    }

    pub fn permissions(&self) -> (r: ApiPermissions)
        ensures
            r == self.grant(),
    {
        self.permissions
    }
}

/// Which capabilities are closed by default. A restricted capability must be
/// unlocked by the grant of a matching credential.
#[derive(Debug, Clone, Copy, PartialEq, Eq, Structural)]
pub struct ApiAccessPolicy {
    pub restrict_connect: bool,
    pub restrict_host: bool,
}

impl Default for ApiAccessPolicy {
    /// Closed by default: both capabilities restricted.
    fn default() -> (r: Self)
        ensures
            r == (ApiAccessPolicy { restrict_connect: true, restrict_host: true }),
    {
        ApiAccessPolicy { restrict_connect: true, restrict_host: true }
    }
}

/// A policy and the registered credentials, in order.
#[derive(Debug, Clone)]
pub struct ApiAccessConfig {
    pub policy: ApiAccessPolicy,
    pub keys: Vec<ApiKey>,
}

impl Default for ApiAccessConfig {
    /// The default policy and no credentials.
    fn default() -> (r: Self)
        ensures
            r.policy == (ApiAccessPolicy { restrict_connect: true, restrict_host: true }),
            r.keys@.len() == 0,
    {
        ApiAccessConfig { policy: ApiAccessPolicy::default(), keys: Vec::new() }
    }
}

/// The grant of the first credential in `keys` whose token is `token`, or
/// `None` where no credential has it.
pub open spec fn lookup(keys: Seq<ApiKey>, token: Seq<char>) -> Option<ApiPermissions>
    decreases keys.len(),
{
    if keys.len() == 0 {
        None
    } else if keys[0].token() == token {
        Some(keys[0].grant())
    } else {
        lookup(keys.drop_first(), token)
    }
}

/// Each capability is granted where the policy leaves it open, or where a
/// matching credential's grant holds it.
pub open spec fn effective(policy: ApiAccessPolicy, grant: Option<ApiPermissions>) -> ApiPermissions {
    ApiPermissions {
        connect: !policy.restrict_connect || (grant is Some && grant->0.connect),
        host: !policy.restrict_host || (grant is Some && grant->0.host),
    }
}

/// The permissions of a caller that presents `token` (`None`: no token).
pub open spec fn resolve(
    policy: ApiAccessPolicy,
    keys: Seq<ApiKey>,
    token: Option<Seq<char>>,
) -> ApiPermissions {
    match token {
        Some(t) => effective(policy, lookup(keys, t)),
        None => effective(policy, None),
    }
}

/// The token presented, as a sequence of characters.
pub open spec fn presented(key: Option<&str>) -> Option<Seq<char>> {
    match key {
        Some(k) => Some(k@),
        None => None,
    }
}

/// Resolves permissions against a configuration that stays fixed for the
/// manager's lifetime.
pub struct ApiAccessManager {
    config: ApiAccessConfig,
}

impl ApiAccessManager {
    /// The policy the manager was built with.
    pub closed spec fn policy(&self) -> ApiAccessPolicy {
        self.config.policy
    }

    /// The credentials the manager was built with, in order.
    pub closed spec fn keys(&self) -> Seq<ApiKey> {
        self.config.keys@
    }

    pub fn new(config: ApiAccessConfig) -> (r: Self)
        ensures
            r.policy() == config.policy,
            r.keys() == config.keys@,
    {
        ApiAccessManager { config }
    }

    /// The permissions of a caller that presents `key`, or no token at all.
    /// Tokens are compared by exact equality; where several credentials share
    /// a token, the first one counts.
    pub fn get_permissions(&self, key: Option<&str>) -> (r: ApiPermissions)
        ensures
            r == resolve(self.policy(), self.keys(), presented(key)),
    {
        let default_perms = ApiPermissions {
            connect: !self.config.policy.restrict_connect,
            host: !self.config.policy.restrict_host,
        };
        let presented_key = match key {
            Some(k) => k,
            None => {
                return default_perms;
            },
        };
        let token: String = presented_key.to_owned();
        let keys = &self.config.keys;
        let n: usize = keys.len();
        let mut i: usize = 0;
        assert(keys@.subrange(0, n as int) =~= keys@);
        while i < n
            invariant
                n == keys@.len(),
                keys@ == self.keys(),
                key == Some(presented_key),
                i <= n,
                token@ == presented_key@,
                lookup(keys@, presented_key@) == lookup(keys@.subrange(i as int, n as int), presented_key@),
            decreases n - i,
        {
            let k = &keys[i];
            assert(keys@.subrange(i as int, n as int).drop_first() =~= keys@.subrange(
                i + 1,
                n as int,
            ));
            assert(keys@.subrange(i as int, n as int)[0] == keys@[i as int]);
            if k.key == token {
                return ApiPermissions {
                    connect: !self.config.policy.restrict_connect || k.permissions.connect,
                    host: !self.config.policy.restrict_host || k.permissions.host,
                };
            }
            i = i + 1;
        }
        default_perms
    }
}

} // verus!
