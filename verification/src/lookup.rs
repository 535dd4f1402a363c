use crate::description::host::{Host, HostTcmCenter};
use vstd::prelude::*;
use vstd::string::*;

verus! {

/// A table from names to texts, kept in a `hashbrown::HashMap`.
#[verifier::external_body]
pub struct NameTable {
    map: hashbrown::HashMap<String, String>,
}

/// What a table holds: for each name that was entered, the text that was
/// entered last under it.
pub uninterp spec fn table_entries(table: NameTable) -> Map<Seq<char>, Seq<char>>;

/// The content of a table that holds nothing.
pub open spec fn no_entries() -> Map<Seq<char>, Seq<char>> {
    Map::empty()
}

impl NameTable {
    /// `hashbrown::HashMap::new` makes a map that holds nothing.
    #[verifier::external_body]
    pub(crate) fn empty() -> (table: NameTable)
        ensures
            table_entries(table) == no_entries(),
    {
        NameTable { map: hashbrown::HashMap::new() }
    }

    /// `hashbrown::HashMap::insert` puts the value under the key, in place of
    /// a value that stood under an equal key, and leaves every other entry
    /// as it was.
    #[verifier::external_body]
    pub(crate) fn put(&mut self, name: String, value: String)
        ensures
            table_entries(*final(self)) == table_entries(*old(self)).insert(name@, value@),
    {
        self.map.insert(name, value);
    }

    /// `hashbrown::HashMap::get` hands out the value that stands under a key
    /// equal to the one asked for, and nothing where there is none.
    #[verifier::external_body]
    pub(crate) fn find(&self, name: &str) -> (value: Option<&String>)
        ensures
            value is Some == table_entries(*self).contains_key(name@),
            value is Some ==> value->0@ == table_entries(*self)[name@],
    {
        self.map.get(name)
    }
}

/// The name under which the host of the descriptors itself is known.
pub open spec fn local_name() -> Seq<char> {
    "TcmHost"@
}

/// The address of the host of the descriptors itself.
pub open spec fn local_address() -> Seq<char> {
    "127.0.0.1"@
}

/// The addresses of the first `n` hosts under their names; of two hosts of
/// one name the later counts.
pub open spec fn host_entries(hosts: Seq<Host>, n: nat) -> Map<Seq<char>, Seq<char>>
    decreases n,
{
    if n == 0 {
        Map::empty()
    } else {
        host_entries(hosts, (n - 1) as nat).insert(hosts[n - 1].name@, hosts[n - 1].inner_ip@)
    }
}

/// The table of a host descriptor: the address of each host under its name,
/// and the local address under the local name.
pub open spec fn host_table_of(center: HostTcmCenter) -> Map<Seq<char>, Seq<char>> {
    host_entries(center.host_tab.hosts@, center.host_tab.hosts.len() as nat).insert(
        local_name(),
        local_address(),
    )
}

impl NameTable {
    /// What the table holds.
    pub open spec fn entries(self) -> Map<Seq<char>, Seq<char>> {
        table_entries(self)
    }

    /// A table that holds nothing.
    pub fn new() -> (table: NameTable)
        ensures
            table.entries() == no_entries(),
    {
        NameTable::empty()
    }

    /// Enters `value` under `name`, in place of what stood there.
    pub fn insert(&mut self, name: String, value: String)
        ensures
            final(self).entries() == old(self).entries().insert(name@, value@),
    {
        self.put(name, value)
    }

    /// The text under `name`, where there is one.
    pub fn get(&self, name: &str) -> (value: Option<String>)
        ensures
            value is Some == self.entries().contains_key(name@),
            value is Some ==> value->0@ == self.entries()[name@],
    {
        match self.find(name) {
            Some(found) => {
                let copy = found.clone();
                Some(copy)
            },
            None => None,
        }
    }
}

/// The table from the names of the hosts to their addresses, as the host
/// descriptor gives them.
pub fn host_table(center: &HostTcmCenter) -> (table: NameTable)
    ensures
        table.entries() == host_table_of(*center),
{
    let mut table = NameTable::new();
    let hosts = &center.host_tab.hosts;
    let mut i: usize = 0;
    while i < hosts.len()
        invariant
            i <= hosts.len(),
            table.entries() == host_entries(hosts@, i as nat),
        decreases hosts.len() - i,
    {
        table.insert(hosts[i].name.clone(), hosts[i].inner_ip.clone());
        i = i + 1;
    }
    table.insert(String::from_str("TcmHost"), String::from_str("127.0.0.1"));
    table
}

} // verus!
