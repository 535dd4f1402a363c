pub mod deploy;
pub mod host;
pub mod proc;

use vstd::prelude::*;

verus! {

/// Why the descriptors cannot be turned into records.
#[derive(Debug, PartialEq)]
pub enum DescriptorError {
    /// A placement names a host that the host descriptor does not have.
    UnknownHost(String),
    /// A cluster lists a process that no group names.
    UnknownProcess(String),
    /// Another descriptor was handed in than the one asked for.
    WrongDescriptor,
}

/// Position `i` holds the first of `names` that `table` does not have.
pub open spec fn first_unknown(
    names: Seq<Seq<char>>,
    table: Map<Seq<char>, Seq<char>>,
    i: int,
) -> bool {
    &&& 0 <= i < names.len()
    &&& !table.contains_key(names[i])
    &&& forall|j: int| 0 <= j < i ==> table.contains_key(#[trigger] names[j])
}

/// `table` has every one of `names`.
pub open spec fn all_known(names: Seq<Seq<char>>, table: Map<Seq<char>, Seq<char>>) -> bool {
    forall|j: int| 0 <= j < names.len() ==> table.contains_key(#[trigger] names[j])
}

} // verus!
