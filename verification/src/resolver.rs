//! Resolving a runtime-specified (group/version, kind) pair to the
//! concrete endpoint metadata reported by a discovery query.

use vstd::prelude::*;

verus! {

/// One resource type as reported by a discovery query for a single
/// group/version: its kind, its plural endpoint name, and whether it is
/// namespaced.
#[derive(Debug, Clone, PartialEq, Eq)]
pub struct DiscoveryEntry {
    pub kind: String,
    pub plural_name: String,
    pub namespaced: bool,
}

/// The endpoint metadata of one resource type, resolved once at startup
/// and immutable afterwards.
#[derive(Debug, Clone, PartialEq, Eq)]
pub struct ResourceDescriptor {
    pub group: String,
    pub version: String,
    pub kind: String,
    pub plural_name: String,
    pub namespaced: bool,
}

/// Why a (group/version, kind) pair could not be resolved.
#[derive(Debug, Clone, Copy, PartialEq, Eq, Structural)]
pub enum DiscoveryError {
    /// No resource of the requested kind exists in the group/version.
    NotFound,
    /// A non-core group/version string has no group and version parts.
    MalformedGroupVersion,
}

/// The group/version string that denotes the core group.
pub open spec fn core_group_version() -> Seq<char> {
    "v1"@
}

/// Position `i` is the first slash of `s`.
pub open spec fn first_slash_at(s: Seq<char>, i: int) -> bool {
    &&& 0 <= i < s.len()
    &&& s[i] == '/'
    &&& forall|j: int| 0 <= j < i ==> s[j] != '/'
}

/// `s` holds a slash somewhere.
pub open spec fn has_slash(s: Seq<char>) -> bool {
    exists|i: int| 0 <= i < s.len() && s[i] == '/'
}

/// Position `i` is the first entry of the discovery listing whose kind
/// is `kind`.
pub open spec fn first_kind_match(entries: Seq<DiscoveryEntry>, kind: Seq<char>, i: int) -> bool {
    &&& 0 <= i < entries.len()
    &&& entries[i].kind@ == kind
    &&& forall|j: int| 0 <= j < i ==> entries[j].kind@ != kind
}

/// The discovery listing reports some resource of the given kind.
pub open spec fn kind_listed(entries: Seq<DiscoveryEntry>, kind: Seq<char>) -> bool {
    exists|i: int| 0 <= i < entries.len() && entries[i].kind@ == kind
}

/// Character-by-character string equality.
fn str_eq(a: &str, b: &str) -> (r: bool)
    ensures
        r == (a@ == b@),
{
    let n = a.unicode_len();
    if n != b.unicode_len() {
        return false;
    }
    let mut i: usize = 0;
    while i < n
        invariant
            i <= n,
            n == a@.len(),
            n == b@.len(),
            forall|j: int| 0 <= j < i ==> a@[j] == b@[j],
        decreases n - i,
    {
        if a.get_char(i) != b.get_char(i) {
            return false;
        }
        i += 1;
    }
    proof {
        assert(a@ =~= b@);
    }
    true
}

/// Maps a group/version string and a kind to the endpoint metadata the
/// discovery listing for that group/version reports.
///
/// The bare core version splits into an empty group; any other string
/// splits at its first slash into group and version, and fails with
/// `MalformedGroupVersion` when it has none. The listing is scanned for
/// an exact kind match, whose plural name and namespaced flag are taken
/// over unchanged; a kind the listing does not report fails with
/// `NotFound`.
pub fn resolve_descriptor(
    apiversion: &str,
    kind: &str,
    entries: &Vec<DiscoveryEntry>,
) -> (r: Result<ResourceDescriptor, DiscoveryError>)
    ensures
        r == Err::<ResourceDescriptor, _>(DiscoveryError::MalformedGroupVersion) <==> (apiversion@
            != core_group_version() && !has_slash(apiversion@)),
        r == Err::<ResourceDescriptor, _>(DiscoveryError::NotFound) <==> ((apiversion@
            == core_group_version() || has_slash(apiversion@)) && !kind_listed(entries@, kind@)),
        r matches Ok(d) ==> {
            &&& exists|i: int|
                first_kind_match(entries@, kind@, i) && d.plural_name@ == entries@[i].plural_name@
                    && d.namespaced == entries@[i].namespaced
            &&& d.kind@ == kind@
            &&& apiversion@ == core_group_version() ==> d.group@ == Seq::<char>::empty()
                && d.version@ == core_group_version()
            &&& apiversion@ != core_group_version() ==> exists|p: int|
                first_slash_at(apiversion@, p) && d.group@ == apiversion@.subrange(0, p)
                    && d.version@ == apiversion@.subrange(p + 1, apiversion@.len() as int)
        },
{
    let is_core = str_eq(apiversion, "v1");
    let group: String;
    let version: String;
    if is_core {
        group = String::new();
        version = apiversion.to_owned();
    } else {
        let n = apiversion.unicode_len();
        let mut i: usize = 0;
        let mut slash: Option<usize> = None;
        while i < n
            invariant
                i <= n,
                n == apiversion@.len(),
                slash matches Some(p) ==> first_slash_at(apiversion@, p as int) && p < n,
                slash is None ==> forall|j: int| 0 <= j < i ==> apiversion@[j] != '/',
            decreases n - i,
        {
            if slash.is_none() && apiversion.get_char(i) == '/' {
                slash = Some(i);
            }
            i += 1;
        }
        match slash {
            Some(p) => {
                group = apiversion.substring_char(0, p).to_owned();
                version = apiversion.substring_char(p + 1, n).to_owned();
            },
            None => {
                assert(!has_slash(apiversion@));
                return Err(DiscoveryError::MalformedGroupVersion);
            },
        }
    }
    let m = entries.len();
    let mut k: usize = 0;
    while k < m
        invariant
            k <= m,
            m == entries@.len(),
            forall|j: int| 0 <= j < k ==> entries@[j].kind@ != kind@,
            is_core == (apiversion@ == core_group_version()),
            is_core ==> group@ == Seq::<char>::empty() && version@ == core_group_version(),
            !is_core ==> exists|p: int|
                first_slash_at(apiversion@, p) && group@ == apiversion@.subrange(0, p)
                    && version@ == apiversion@.subrange(p + 1, apiversion@.len() as int),
        decreases m - k,
    {
        if str_eq(entries[k].kind.as_str(), kind) {
            assert(first_kind_match(entries@, kind@, k as int));
            return Ok(ResourceDescriptor {
                group,
                version,
                kind: kind.to_owned(),
                plural_name: entries[k].plural_name.clone(),
                namespaced: entries[k].namespaced,
            });
        }
        k += 1;
    }
    Err(DiscoveryError::NotFound)
}

} // verus!
