//! Request authentication: the `apikey` header against the configured key
//! set, and the reloadable key service with its health states.

use vstd::prelude::*;

use crate::config::SecurityConfig;
use crate::strings::str_eq;

verus! {

/// Whether some configured key equals the presented one.
pub open spec fn spec_key_accepted(config: SecurityConfig, key: Seq<char>) -> bool {
    exists|i: int| 0 <= i < config.api_keys@.len() && config.api_keys@[i].key@ == key
}

/// Whether `i` is the first configured entry whose key equals the
/// presented one.
pub open spec fn spec_first_key_match(config: SecurityConfig, key: Seq<char>, i: int) -> bool {
    &&& 0 <= i < config.api_keys@.len()
    &&& config.api_keys@[i].key@ == key
    &&& forall|j: int| 0 <= j < i ==> config.api_keys@[j].key@ != key
}

/// Authenticates a request and names the matched key, so that usage can
/// be counted per key name: the name of the first configured entry whose
/// key equals the header value, nothing for an absent header or an
/// unknown key.
pub fn authenticate_key_name(security_config: &SecurityConfig, api_key_header: Option<&str>) -> (r:
    Option<String>)
    ensures
        api_key_header is None ==> r is None,
        r is Some ==> api_key_header is Some && exists|i: int|
            #[trigger] spec_first_key_match(*security_config, api_key_header->0@, i) && r->0@
                == security_config.api_keys@[i].name@,
        api_key_header is Some && r is None ==> !spec_key_accepted(
            *security_config,
            api_key_header->0@,
        ),
{
    let key = match api_key_header {
        Some(k) => k,
        Option::None => {
            return None;
        },
    };
    let mut i: usize = 0;
    while i < security_config.api_keys.len()
        invariant
            api_key_header == Some(key),
            i <= security_config.api_keys@.len(),
            forall|j: int| 0 <= j < i ==> security_config.api_keys@[j].key@ != key@,
        decreases security_config.api_keys@.len() - i,
    {
        if str_eq(security_config.api_keys[i].key.as_str(), key) {
            let name = security_config.api_keys[i].name.clone();
            proof {
                assert(spec_first_key_match(*security_config, api_key_header->0@, i as int));
                assert(name@ == security_config.api_keys@[i as int].name@);
            }
            return Some(name);
        }
        i = i + 1;
    }
    proof {
        assert(forall|j: int|
            0 <= j < security_config.api_keys@.len()
                ==> #[trigger] security_config.api_keys@[j].key@ != key@);
    }
    None
}

/// Authenticates a request: the `apikey` header value, where present,
/// must equal one of the configured keys; an absent header fails.
pub fn authenticate(security_config: &SecurityConfig, api_key_header: Option<&str>) -> (r: bool)
    ensures
        r == match api_key_header {
            Some(k) => spec_key_accepted(*security_config, k@),
            None => false,
        },
{
    let key = match api_key_header {
        Some(k) => k,
        Option::None => {
            return false;
        },
    };
    let mut i: usize = 0;
    while i < security_config.api_keys.len()
        invariant
            api_key_header == Some(key),
            i <= security_config.api_keys@.len(),
            forall|j: int| 0 <= j < i ==> security_config.api_keys@[j].key@ != key@,
        decreases security_config.api_keys@.len() - i,
    {
        if str_eq(security_config.api_keys[i].key.as_str(), key) {
            proof {
                assert(security_config.api_keys@[i as int].key@ == key@);
                assert(spec_key_accepted(*security_config, key@));
            }
            return true;
        }
        i = i + 1;
    }
    proof {
        assert(forall|j: int|
            0 <= j < security_config.api_keys@.len()
                ==> #[trigger] security_config.api_keys@[j].key@ != key@);
    }
    false
}

/// The health of the reloading key service.
#[derive(PartialEq, Eq, Structural, Clone, Copy, Debug)]
pub enum ServiceStatus {
    Active,
    Failed,
    Exited,
}

/// The key list the reloading service holds.
pub struct ServiceKeys {
    pub api_keys: Vec<String>,
}

/// The reloading key service: a key list and a status that each reload
/// outcome advances. The periodic file read itself is the application
/// shell's loop.
pub struct ApiKeysService {
    keys: ServiceKeys,
    status: ServiceStatus,
}

impl ApiKeysService {
    pub closed spec fn keys_view(&self) -> Seq<Seq<char>> {
        self.keys.api_keys@.map_values(|k: String| k@)
    }

    pub closed spec fn status_model(&self) -> ServiceStatus {
        self.status
    }

    /// A service that starts out active with the keys first read.
    pub fn new(keys: ServiceKeys) -> (r: ApiKeysService)
        ensures
            r.status_model() == ServiceStatus::Active,
            r.keys_view() == keys.api_keys@.map_values(|k: String| k@),
    {
        ApiKeysService { keys, status: ServiceStatus::Active }
    }

    pub fn get_status(&self) -> (r: ServiceStatus)
        ensures
            r == self.status_model(),
    {
        self.status
    }

    /// Stops the reload loop: an exited service never accepts again.
    pub fn stop_service(&mut self)
        ensures
            final(self).status_model() == ServiceStatus::Exited,
            final(self).keys_view() == old(self).keys_view(),
    {
        self.status = ServiceStatus::Exited;
    }

    /// Advances on one reload outcome: a successful read installs the keys
    /// and activates the service; a failed read marks it failed and keeps
    /// the old keys; an exited service ignores reloads.
    pub fn reload(&mut self, fetched: Option<ServiceKeys>)
        ensures
            old(self).status_model() == ServiceStatus::Exited ==> *final(self) == *old(self),
            old(self).status_model() != ServiceStatus::Exited ==> match fetched {
                Some(k) => final(self).status_model() == ServiceStatus::Active && final(self).keys_view() == k.api_keys@.map_values(|s: String| s@),
                None => final(self).status_model() == ServiceStatus::Failed && final(self).keys_view() == old(self).keys_view(),
            },
    {
        match self.status {
            ServiceStatus::Exited => {},
            _ => {
                match fetched {
                    Some(k) => {
                        self.keys = k;
                        self.status = ServiceStatus::Active;
                    },
                    Option::None => {
                        self.status = ServiceStatus::Failed;
                    },
                }
            },
        }
    }

    /// Whether the key is accepted: only an active service accepts, and
    /// only keys it holds.
    pub fn validate(&self, key: &str) -> (r: bool)
        ensures
            r == (self.status_model() == ServiceStatus::Active && crate::keys::spec_contains_key(
                self.keys_view(),
                key@,
            )),
    {
        match self.status {
            ServiceStatus::Active => {
                let mut i: usize = 0;
                while i < self.keys.api_keys.len()
                    invariant
                        self.status_model() == ServiceStatus::Active,
                        i <= self.keys.api_keys@.len(),
                        forall|j: int| 0 <= j < i ==> self.keys.api_keys@[j]@ != key@,
                    decreases self.keys.api_keys@.len() - i,
                {
                    if str_eq(self.keys.api_keys[i].as_str(), key) {
                        proof {
                            assert(self.keys_view()[i as int] == key@);
                        }
                        return true;
                    }
                    i = i + 1;
                }
                proof {
                    assert(forall|j: int|
                        0 <= j < self.keys_view().len() ==> #[trigger] self.keys_view()[j] != key@);
                }
                false
            },
            _ => false,
        }
    }

    /// Authenticates a request by its `apikey` header value.
    pub fn authenticate(&self, api_key_header: Option<&str>) -> (r: bool)
        ensures
            r == match api_key_header {
                Some(k) => self.status_model() == ServiceStatus::Active
                    && crate::keys::spec_contains_key(self.keys_view(), k@),
                None => false,
            },
    {
        match api_key_header {
            Some(k) => self.validate(k),
            Option::None => false,
        }
    }
}

} // verus!
