//! The API-key service: a set of accepted keys and a health status. The
//! keys come from a file that the application shell reads and re-reads;
//! the service only decides.

use vstd::prelude::*;

use crate::strings::str_eq;

verus! {

/// Whether the service holds a usable key set.
#[derive(PartialEq, Eq, Structural, Clone, Copy, Debug)]
pub enum Status {
    Active,
    Failed,
}

/// The raw key list, as the key file carries it.
pub struct ApiKeys {
    pub api_keys: Vec<String>,
}

/// The key service: the accepted keys and whether the last load
/// succeeded.
pub struct KeyService {
    keys: Vec<String>,
    status: Status,
}

/// Whether a key occurs in a key list.
pub open spec fn spec_contains_key(keys: Seq<Seq<char>>, key: Seq<char>) -> bool {
    exists|i: int| 0 <= i < keys.len() && keys[i] == key
}

impl KeyService {
    /// The accepted keys.
    pub closed spec fn keys_view(&self) -> Seq<Seq<char>> {
        self.keys@.map_values(|k: String| k@)
    }

    pub closed spec fn status_model(&self) -> Status {
        self.status
    }

    /// A fresh service: no keys, and failed until a load succeeds.
    pub fn new() -> (r: KeyService)
        ensures
            r.status_model() == Status::Failed,
            r.keys_view() =~= Seq::<Seq<char>>::empty(),
    {
        KeyService { keys: Vec::new(), status: Status::Failed }
    }

    /// Whether the key is accepted: only an active service accepts, and
    /// only keys it holds.
    pub fn validate(&self, key: &str) -> (r: bool)
        ensures
            r == (self.status_model() == Status::Active && spec_contains_key(
                self.keys_view(),
                key@,
            )),
    {
        match self.status {
            Status::Active => {
                let mut i: usize = 0;
                while i < self.keys.len()
                    invariant
                        self.status_model() == Status::Active,
                        i <= self.keys@.len(),
                        forall|j: int| 0 <= j < i ==> self.keys@[j]@ != key@,
                    decreases self.keys@.len() - i,
                {
                    if str_eq(self.keys[i].as_str(), key) {
                        proof {
                            assert(self.keys_view()[i as int] == key@);
                        }
                        return true;
                    }
                    i = i + 1;
                }
                proof {
                    assert(forall|j: int|
                        0 <= j < self.keys_view().len() ==> #[trigger] self.keys_view()[j] != key@);
                }
                false
            },
            Status::Failed => false,
        }
    }

    /// Takes the outcome of reading the key file: a read list makes the
    /// service active with those keys; a failed read resets it to the
    /// fresh, failed state. Returns whether the load succeeded.
    pub fn load(&mut self, fetched: Option<ApiKeys>) -> (r: bool)
        ensures
            match fetched {
                Some(k) => r && final(self).status_model() == Status::Active && final(self).keys_view() == k.api_keys@.map_values(|s: String| s@),
                None => !r && final(self).status_model() == Status::Failed && final(self).keys_view() =~= Seq::<Seq<char>>::empty(),
            },
    {
        match fetched {
            Some(k) => {
                self.keys = k.api_keys;
                self.status = Status::Active;
                true
            },
            Option::None => {
                self.keys = Vec::new();
                self.status = Status::Failed;
                false
            },
        }
    }
}

/// Whether a key is accepted by the service.
pub fn validate(service: &KeyService, key: &str) -> (r: bool)
    ensures
        r == (service.status_model() == Status::Active && spec_contains_key(
            service.keys_view(),
            key@,
        )),
{
    service.validate(key)
}

} // verus!
