use vstd::prelude::*;

verus! {

/// One forward-only schema change.
pub struct Migration {
    pub version: u64,
    pub description: String,
    pub sql: String,
}

/// Why a list of migrations cannot form a registry.
#[derive(Debug, Clone, Copy, PartialEq, Eq, Structural)]
pub enum RegistrationError {
    /// Two migrations carry this version.
    DuplicateVersion { version: u64 },
    /// This version comes after a larger one.
    NotAscending { version: u64 },
    /// A migration carries version zero, the version of an empty store.
    ZeroVersion,
}

pub open spec fn versions_of(ms: Seq<Migration>) -> Seq<u64> {
    ms.map_values(|m: Migration| m.version)
}

pub open spec fn has_duplicate(vs: Seq<u64>) -> bool {
    exists|i: int, j: int| 0 <= i < j < vs.len() && #[trigger] vs[i] == #[trigger] vs[j]
}

pub open spec fn is_duplicated(vs: Seq<u64>, v: u64) -> bool {
    exists|i: int, j: int| 0 <= i < j < vs.len() && #[trigger] vs[i] == v && #[trigger] vs[j] == v
}

pub open spec fn strictly_ascending(vs: Seq<u64>) -> bool {
    forall|i: int, j: int| 0 <= i < j < vs.len() ==> #[trigger] vs[i] < #[trigger] vs[j]
}

pub open spec fn adjacent_ascending(vs: Seq<u64>) -> bool {
    forall|i: int| 0 < i < vs.len() ==> vs[i - 1] < #[trigger] vs[i]
}

/// Versions that a registry may hold: positive and strictly ascending.
pub open spec fn valid_versions(vs: Seq<u64>) -> bool {
    &&& strictly_ascending(vs)
    &&& forall|i: int| 0 <= i < vs.len() ==> #[trigger] vs[i] > 0
}

proof fn lemma_adjacent_chain(vs: Seq<u64>, i: int, j: int)
    requires
        adjacent_ascending(vs),
        0 <= i < j < vs.len(),
    ensures
        vs[i] < vs[j],
    decreases j - i,
{
    if i + 1 < j {
        lemma_adjacent_chain(vs, i, j - 1);
    }
}

proof fn lemma_adjacent_to_strict(vs: Seq<u64>)
    requires
        adjacent_ascending(vs),
    ensures
        strictly_ascending(vs),
{
    assert forall|i: int, j: int| 0 <= i < j < vs.len() implies #[trigger] vs[i] < #[trigger] vs[j] by {
        lemma_adjacent_chain(vs, i, j);
    }
}

/// An ordered list of migrations whose versions are positive and strictly
/// ascending.
pub struct Registry {
    migrations: Vec<Migration>,
}

impl Registry {
    pub closed spec fn entries(&self) -> Seq<Migration> {
        self.migrations@
    }

    pub open spec fn versions(&self) -> Seq<u64> {
        versions_of(self.entries())
    }

    pub open spec fn wf(&self) -> bool {
        valid_versions(self.versions())
    }

    /// Validates the list before anything runs: a repeated version, a version
    /// out of order, or version zero is rejected. Nothing is executed here.
    pub fn new(migrations: Vec<Migration>) -> (r: Result<Registry, RegistrationError>)
        ensures
            r is Ok <==> valid_versions(versions_of(migrations@)),
            r matches Ok(reg) ==> reg.wf() && reg.entries() == migrations@,
            has_duplicate(versions_of(migrations@)) <==> r matches Err(
                RegistrationError::DuplicateVersion { .. },
            ),
            r matches Err(RegistrationError::DuplicateVersion { version }) ==> is_duplicated(
                versions_of(migrations@),
                version,
            ),
            r matches Err(RegistrationError::NotAscending { version }) ==> {
                &&& !has_duplicate(versions_of(migrations@))
                &&& !strictly_ascending(versions_of(migrations@))
                &&& versions_of(migrations@).contains(version)
            },
            r matches Err(RegistrationError::ZeroVersion) ==> {
                &&& strictly_ascending(versions_of(migrations@))
                &&& versions_of(migrations@).contains(0)
            },
    {
        let ghost vs = versions_of(migrations@);
        let n = migrations.len();
        let mut j: usize = 0;
        while j < n
            invariant
                n == migrations@.len(),
                vs == versions_of(migrations@),
                j <= n,
                forall|a: int, b: int| 0 <= a < b < j ==> #[trigger] vs[a] != #[trigger] vs[b],
            decreases n - j,
        {
            let mut i: usize = 0;
            while i < j
                invariant
                    n == migrations@.len(),
                    vs == versions_of(migrations@),
                    i <= j < n,
                    forall|a: int| 0 <= a < i ==> #[trigger] vs[a] != vs[j as int],
                decreases j - i,
            {
                if migrations[i].version == migrations[j].version {
                    let version = migrations[j].version;
                    assert(vs[i as int] == version && vs[j as int] == version);
                    return Err(RegistrationError::DuplicateVersion { version });
                }
                i = i + 1;
            }
            j = j + 1;
        }
        assert(!has_duplicate(vs));
        let mut k: usize = 1;
        while k < n
            invariant
                n == migrations@.len(),
                vs == versions_of(migrations@),
                !has_duplicate(vs),
                1 <= k,
                k <= n || n == 0,
                forall|a: int| 0 < a < k && a < n ==> vs[a - 1] < #[trigger] vs[a],
            decreases n - k,
        {
            if migrations[k].version <= migrations[k - 1].version {
                let version = migrations[k].version;
                assert(vs[k - 1] >= vs[k as int]);
                assert(vs.contains(version)) by {
                    assert(vs[k as int] == version);
                }
                return Err(RegistrationError::NotAscending { version });
            }
            k = k + 1;
        }
        proof {
            lemma_adjacent_to_strict(vs);
        }
        if n > 0 && migrations[0].version == 0 {
            assert(vs[0] == 0);
            return Err(RegistrationError::ZeroVersion);
        }
        proof {
            assert forall|a: int| 0 <= a < vs.len() implies #[trigger] vs[a] > 0 by {
                if a > 0 {
                    assert(vs[0] < vs[a]);
                }
            }
        }
        Ok(Registry { migrations })
    }

    pub fn len(&self) -> (r: usize)
        ensures
            r == self.entries().len(),
    {
        self.migrations.len()
    }

    pub fn get(&self, index: usize) -> (r: &Migration)
        requires
            index < self.entries().len(),
        ensures
            *r == self.entries()[index as int],
    {
        &self.migrations[index]
    }
}

} // verus!
