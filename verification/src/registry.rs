//! A name registry: each logical name resolves to the latest registered
//! contract address and version, and keeps the history of the distinct
//! versions registered under it, in first-registration order.
use vstd::prelude::*;
use std::collections::HashMap;
use crate::errors::Error;

verus! {

broadcast use vstd::std_specs::hash::group_hash_axioms;

/// The address and version a name currently resolves to.
#[derive(Clone, Copy, Debug, PartialEq, Eq, Structural)]
pub struct ContractRegistration {
    pub address: u64,
    pub version: u32,
}

/// Abstract state of the registry.
pub struct RegistryView {
    pub admin: u64,
    pub contracts: Map<u64, ContractRegistration>,
    pub history: Map<u64, Seq<u32>>,
}

pub struct RegistryContract {
    admin: u64,
    contracts: HashMap<u64, ContractRegistration>,
    history: HashMap<u64, Vec<u32>>,
}

impl View for RegistryContract {
    type V = RegistryView;

    closed spec fn view(&self) -> RegistryView {
        RegistryView {
            admin: self.admin,
            contracts: self.contracts@,
            history: self.history@.map_values(|v: Vec<u32>| v@),
        }
    }
}

impl RegistryView {
    /// Each history lists distinct versions.
    pub open spec fn wf(self) -> bool {
        forall|n: u64| #[trigger] self.history.contains_key(n) ==> self.history[n].no_duplicates()
    }

    pub open spec fn versions(self, name: u64) -> Seq<u32> {
        if self.history.contains_key(name) {
            self.history[name]
        } else {
            Seq::empty()
        }
    }

    /// Outcome of `set_contract`.
    pub open spec fn set_spec(self, caller: u64, name: u64, address: u64, version: u32) -> Result<
        RegistryView,
        Error,
    > {
        if caller != self.admin {
            Err(Error::Unauthorized)
        } else {
            Ok(
                RegistryView {
                    contracts: self.contracts.insert(name, ContractRegistration { address, version }),
                    history: if self.versions(name).contains(version) {
                        self.history
                    } else {
                        self.history.insert(name, self.versions(name).push(version))
                    },
                    ..self
                },
            )
        }
    }
}

impl RegistryContract {
    pub open spec fn wf(&self) -> bool {
        self@.wf()
    }

    /// An empty registry administered by `admin`.
    pub fn initialize(admin: u64) -> (c: Self)
        ensures
            c@ == (RegistryView { admin, contracts: Map::empty(), history: Map::empty() }),
            c.wf(),
    {
        let c = RegistryContract { admin, contracts: HashMap::new(), history: HashMap::new() };
        assert(c@.history =~= Map::empty());
        c
    }

    /// The admin points `name` at `address` with `version`; a version not
    /// seen before under `name` is appended to its history.
    pub fn set_contract(&mut self, caller: u64, name: u64, address: u64, version: u32) -> (r: Result<(), Error>)
        requires
            old(self).wf(),
        ensures
            match old(self)@.set_spec(caller, name, address, version) {
                Err(e) => r == Err::<(), Error>(e) && final(self)@ == old(self)@,
                Ok(v) => r is Ok && final(self)@ == v,
            },
            final(self).wf(),
    {
        if caller != self.admin {
            return Err(Error::Unauthorized);
        }
        self.contracts.insert(name, ContractRegistration { address, version });
        let mut versions: Vec<u32> = match self.history.get(&name) {
            Some(v) => v.clone(),
            None => Vec::new(),
        };
        proof {
            if self.history@.contains_key(name) {
                assert(versions@ =~= self@.versions(name));
            } else {
                assert(versions@ =~= self@.versions(name));
            }
        }
        let already_present = versions.len() > 0 && versions[versions.len() - 1] == version;
        if !already_present {
            let mut found = false;
            let mut i: usize = 0;
            while i < versions.len()
                invariant
                    i <= versions.len(),
                    found <==> exists|j: int| 0 <= j < i && versions@[j] == version,
                decreases versions.len() - i,
            {
                if versions[i] == version {
                    found = true;
                }
                i = i + 1;
            }
            if !found {
                let ghost old_versions = versions@;
                versions.push(version);
                let ghost new_versions = versions@;
                self.history.insert(name, versions);
                proof {
                    assert(!old_versions.contains(version));
                    assert(self@.history =~= old(self)@.history.insert(name, new_versions));
                    assert(new_versions.no_duplicates()) by {
                        assert forall|a: int, b: int|
                            0 <= a < new_versions.len() && 0 <= b < new_versions.len() && a != b implies new_versions[a]
                            != new_versions[b] by {
                            if a < old_versions.len() && b < old_versions.len() {
                            } else if a == old_versions.len() {
                                assert(old_versions[b] == new_versions[b]);
                            } else {
                                assert(old_versions[a] == new_versions[a]);
                            }
                        }
                    }
                }
            } else {
                proof {
                    let j = choose|j: int| 0 <= j < versions@.len() && versions@[j] == version;
                    assert(versions@.contains(version)) by {
                        assert(versions@[j] == version);
                    }
                }
            }
        } else {
            proof {
                assert(versions@[versions@.len() - 1] == version);
                assert(versions@.contains(version));
            }
        }
        Ok(())
    }

    /// The address and version `name` resolves to.
    pub fn get_contract(&self, name: u64) -> (r: Result<(u64, u32), Error>)
        ensures
            self@.contracts.contains_key(name) ==> r == Ok::<(u64, u32), Error>(
                (self@.contracts[name].address, self@.contracts[name].version),
            ),
            !self@.contracts.contains_key(name) ==> r == Err::<(u64, u32), Error>(Error::NotFound),
    {
        match self.contracts.get(&name) {
            Some(reg) => Ok((reg.address, reg.version)),
            None => Err(Error::NotFound),
        }
    }

    /// The distinct versions registered under `name`, oldest first.
    pub fn get_version_history(&self, name: u64) -> (r: Result<Vec<u32>, Error>)
        ensures
            self@.history.contains_key(name) ==> r is Ok && r->Ok_0@ == self@.history[name],
            !self@.history.contains_key(name) ==> r is Err && r->Err_0 == Error::NotFound,
    {
        match self.history.get(&name) {
            Some(v) => {
                let c = v.clone();
                assert(c@ =~= v@);
                Ok(c)
            },
            None => Err(Error::NotFound),
        }
    }
}

/// A name resolves to what was last registered under it, and its history
/// then holds that version exactly once.
pub proof fn lemma_set_then_resolve(v: RegistryView, caller: u64, name: u64, address: u64, version: u32)
    requires
        v.wf(),
        v.set_spec(caller, name, address, version) is Ok,
    ensures
        ({
            let w = v.set_spec(caller, name, address, version)->Ok_0;
            &&& w.contracts[name] == (ContractRegistration { address, version })
            &&& w.versions(name).contains(version)
            &&& w.wf()
            &&& w.versions(name).no_duplicates()
        }),
{
    let w = v.set_spec(caller, name, address, version)->Ok_0;
    if !v.versions(name).contains(version) {
        let nv = v.versions(name).push(version);
        assert(nv[nv.len() - 1] == version);
        assert(nv.no_duplicates()) by {
            if v.history.contains_key(name) {
                assert(v.history[name].no_duplicates());
            }
            assert forall|a: int, b: int| 0 <= a < nv.len() && 0 <= b < nv.len() && a != b implies nv[a]
                != nv[b] by {
                if a < nv.len() - 1 && b < nv.len() - 1 {
                } else if a == nv.len() - 1 {
                    assert(v.versions(name)[b] == nv[b]);
                } else {
                    assert(v.versions(name)[a] == nv[a]);
                }
            }
        }
        assert forall|n: u64| #[trigger] w.history.contains_key(n) implies w.history[n].no_duplicates() by {
            if n != name {
                assert(w.history[n] == v.history[n]);
            }
        }
    } else {
        if v.history.contains_key(name) {
            assert(v.history[name].no_duplicates());
        }
    }
}

} // verus!
