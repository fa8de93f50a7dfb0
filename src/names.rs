use vstd::prelude::*;

verus! {

/// The naming convention a FileName attribute was written under.
#[derive(PartialEq, Eq, Structural, Clone, Copy, Debug)]
pub enum Namespace {
    Posix,
    Win32,
    Dos,
    Win32AndDos,
}

/// One decoded FileName attribute of a file record.
pub struct FileNameAttr {
    pub namespace: Namespace,
    pub name: String,
    /// Record number of the directory this name lives in.
    pub parent: u64,
    pub is_directory: bool,
}

/// A decoded file record: its number and the FileName attributes it carries,
/// in attribute order, with the two values the listing shows.
pub struct FileRecordEntry {
    pub record_number: u64,
    pub names: Vec<FileNameAttr>,
    /// Raw file attribute flags of the record's StandardInformation.
    pub attribute_flags: u32,
    /// Length of the unnamed data stream (0 when there is none).
    pub data_size: u64,
}

/// Why a record could not be given a name under a parent directory.
#[derive(PartialEq, Eq, Structural, Clone, Copy, Debug)]
pub enum NameError {
    NoName { record_number: u64 },
}

/// Does attribute `a` qualify for a lookup with namespace filter `ns`
/// (`None`: any namespace) and parent filter `parent` (`None`: any parent)?
pub open spec fn name_matches(a: FileNameAttr, ns: Option<Namespace>, parent: Option<u64>) -> bool {
    &&& (ns matches Some(n) ==> a.namespace == n)
    &&& (parent matches Some(p) ==> a.parent == p)
}

/// Index of the first attribute of `names` that qualifies for the lookup.
pub open spec fn first_match(
    names: Seq<FileNameAttr>,
    ns: Option<Namespace>,
    parent: Option<u64>,
) -> Option<int>
    decreases names.len(),
{
    if names.len() == 0 {
        None
    } else {
        match first_match(names.drop_last(), ns, parent) {
            Some(i) => Some(i),
            None => if name_matches(names.last(), ns, parent) {
                Some(names.len() - 1)
            } else {
                None
            },
        }
    }
}

/// Index of the name shown for a record inside directory `parent`: the first
/// Win32 name there, else the first Win32AndDos name, else the first of any
/// namespace.
pub open spec fn best_name_index(names: Seq<FileNameAttr>, parent: u64) -> Option<int> {
    match first_match(names, Some(Namespace::Win32), Some(parent)) {
        Some(i) => Some(i),
        None => match first_match(names, Some(Namespace::Win32AndDos), Some(parent)) {
            Some(i) => Some(i),
            None => first_match(names, None, Some(parent)),
        },
    }
}

/// Some attribute of `names` lives in directory `parent`.
pub open spec fn has_name_under(names: Seq<FileNameAttr>, parent: u64) -> bool {
    exists|i: int| 0 <= i < names.len() && (#[trigger] names[i]).parent == parent
}

pub proof fn lemma_first_match_found(
    names: Seq<FileNameAttr>,
    ns: Option<Namespace>,
    parent: Option<u64>,
)
    ensures
        match first_match(names, ns, parent) {
            Some(i) => 0 <= i < names.len() && name_matches(names[i], ns, parent) && forall|
                j: int,
            | 0 <= j < i ==> !name_matches(#[trigger] names[j], ns, parent),
            None => forall|j: int|
                0 <= j < names.len() ==> !name_matches(#[trigger] names[j], ns, parent),
        },
    decreases names.len(),
{
    if names.len() > 0 {
        lemma_first_match_found(names.drop_last(), ns, parent);
        assert(forall|j: int| 0 <= j < names.len() - 1 ==> names.drop_last()[j] == names[j]);
    }
}

/// A field-by-field copy of a FileName attribute.
pub fn copy_name(a: &FileNameAttr) -> (r: FileNameAttr)
    ensures
        r == *a,
{
    FileNameAttr {
        namespace: a.namespace,
        name: a.name.clone(),
        parent: a.parent,
        is_directory: a.is_directory,
    }
}

/// Position of the first attribute of `names` that qualifies for the lookup.
pub fn find_name(names: &Vec<FileNameAttr>, ns: Option<Namespace>, parent: Option<u64>) -> (r:
    Option<usize>)
    ensures
        match r {
            Some(i) => i < names.len() && first_match(names@, ns, parent) == Some(i as int),
            None => first_match(names@, ns, parent) == None::<int>,
        },
{
    let mut i: usize = 0;
    while i < names.len()
        invariant
            0 <= i <= names.len(),
            first_match(names@.subrange(0, i as int), ns, parent) == None::<int>,
        decreases names.len() - i,
    {
        let a = &names[i];
        let ns_ok = match ns {
            Some(n) => a.namespace == n,
            None => true,
        };
        let parent_ok = match parent {
            Some(p) => a.parent == p,
            None => true,
        };
        assert(names@.subrange(0, i + 1).drop_last() =~= names@.subrange(0, i as int));
        if ns_ok && parent_ok {
            proof {
                lemma_first_match_found(names@.subrange(0, i as int), ns, parent);
                lemma_prefix_match(names@, i as int + 1, ns, parent);
            }
            return Some(i);
        }
        i = i + 1;
    }
    assert(names@.subrange(0, i as int) =~= names@);
    None
}

/// The first match of a prefix that holds one is the first match of the whole.
pub proof fn lemma_prefix_match(
    names: Seq<FileNameAttr>,
    k: int,
    ns: Option<Namespace>,
    parent: Option<u64>,
)
    requires
        0 <= k <= names.len(),
        first_match(names.subrange(0, k), ns, parent) is Some,
    ensures
        first_match(names, ns, parent) == first_match(names.subrange(0, k), ns, parent),
    decreases names.len() - k,
{
    if k < names.len() {
        assert(names.subrange(0, k + 1).drop_last() =~= names.subrange(0, k));
        lemma_prefix_match(names, k + 1, ns, parent);
    } else {
        assert(names.subrange(0, k) =~= names);
    }
}

impl FileRecordEntry {
    /// The name this record is listed under inside directory `parent`: the
    /// first Win32 name there, else the first Win32AndDos one, else the first
    /// of any namespace. Fails when no name of the record lives in `parent`,
    /// whatever names it has elsewhere.
    pub fn resolve_best_name(&self, parent: u64) -> (r: Result<FileNameAttr, NameError>)
        ensures
            match best_name_index(self.names@, parent) {
                Some(i) => r == Ok::<FileNameAttr, NameError>(self.names@[i]),
                None => r == Err::<FileNameAttr, NameError>(
                    NameError::NoName { record_number: self.record_number },
                ),
            },
            r is Ok <==> has_name_under(self.names@, parent),
    {
        proof {
            lemma_best_name_exists(self.names@, parent);
        }
        let found = match find_name(&self.names, Some(Namespace::Win32), Some(parent)) {
            Some(i) => Some(i),
            None => match find_name(&self.names, Some(Namespace::Win32AndDos), Some(parent)) {
                Some(i) => Some(i),
                None => find_name(&self.names, None, Some(parent)),
            },
        };
        match found {
            Some(i) => Ok(copy_name(&self.names[i])),
            None => Err(NameError::NoName { record_number: self.record_number }),
        }
    }
}

/// A record gets a name under `parent` exactly when one of its names lives there.
pub proof fn lemma_best_name_exists(names: Seq<FileNameAttr>, parent: u64)
    ensures
        best_name_index(names, parent) is Some <==> has_name_under(names, parent),
        match best_name_index(names, parent) {
            Some(i) => 0 <= i < names.len() && names[i].parent == parent,
            None => true,
        },
{
    lemma_first_match_found(names, Some(Namespace::Win32), Some(parent));
    lemma_first_match_found(names, Some(Namespace::Win32AndDos), Some(parent));
    lemma_first_match_found(names, None, Some(parent));
    if has_name_under(names, parent) {
        let i = choose|i: int| 0 <= i < names.len() && (#[trigger] names[i]).parent == parent;
        assert(name_matches(names[i], None, Some(parent)));
    }
}

/// A record with a single name in directory `parent` is shown there under
/// that name, whatever its namespace.
pub proof fn law_single_name_resolves(names: Seq<FileNameAttr>, parent: u64, i: int)
    requires
        0 <= i < names.len(),
        names[i].parent == parent,
        forall|j: int| 0 <= j < names.len() && j != i ==> (#[trigger] names[j]).parent != parent,
    ensures
        best_name_index(names, parent) == Some(i),
{
    lemma_best_name_exists(names, parent);
}

} // verus!
