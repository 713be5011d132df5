//! The table of processes: the map of the `dashmap` crate from names to what is known of a process.
use crate::process::{mark_stopped, marked_stopped, ProcessInfo};
use dashmap::DashMap;
use std::path::PathBuf;
use vstd::prelude::*;

verus! {

/// `dashmap::DashMap`, a map that threads can share.
#[verifier::external_type_specification]
#[verifier::external_body]
#[verifier::reject_recursive_types(K)]
#[verifier::reject_recursive_types(V)]
#[verifier::reject_recursive_types(S)]
pub struct ExDashMap<K, V, S>(dashmap::DashMap<K, V, S>);

/// What a table of processes holds, by name.
pub uninterp spec fn table_entries(m: DashMap<String, ProcessInfo>) -> Map<Seq<char>, ProcessInfo>;

/// `PathBuf::clone`: an equal path.
pub assume_specification[ <PathBuf as Clone>::clone ](p: &PathBuf) -> (r: PathBuf)
    ensures
        r == *p,
;

/// `DashMap::new`: a table without entries.
#[verifier::external_body]
pub(crate) fn new_table() -> (r: DashMap<String, ProcessInfo>)
    ensures
        table_entries(r).dom() == Set::<Seq<char>>::empty(),
{
    DashMap::new()
}

/// `DashMap::insert`: the entry for the name is the new one, and all others stay.
#[verifier::external_body]
pub(crate) fn insert_entry(m: &mut DashMap<String, ProcessInfo>, name: String, info: ProcessInfo)
    ensures
        table_entries(*final(m)) == table_entries(*old(m)).insert(name@, info),
{
    m.insert(name, info);
}

/// `DashMap::iter`: it comes to each entry once, in an order of its own, and here the names of the
/// entries are listed as it comes to them.
#[verifier::external_body]
pub(crate) fn entry_names(m: &DashMap<String, ProcessInfo>) -> (r: Vec<String>)
    ensures
        forall|i: int|
            0 <= i < r@.len() ==> table_entries(*m).dom().contains(#[trigger] r@[i]@),
        forall|name: Seq<char>|
            #[trigger] table_entries(*m).dom().contains(name) ==> exists|i: int|
                0 <= i < r@.len() && #[trigger] r@[i]@ == name,
        forall|i: int, j: int| 0 <= i < j < r@.len() ==> r@[i]@ != r@[j]@,
{
    m.iter().map(|entry| entry.key().clone()).collect()
}

/// `DashMap::view`: the entry for the name is handed to a function, here to the one that copies it.
#[verifier::external_body]
pub(crate) fn lookup(m: &DashMap<String, ProcessInfo>, name: &String) -> (r: Option<ProcessInfo>)
    ensures
        r == if table_entries(*m).dom().contains(name@) {
            Some(table_entries(*m)[name@])
        } else {
            None
        },
{
    m.view(name, |_, info| info.clone())
}

/// `DashMap::alter_all`: each entry is replaced by what a function makes of it, here the one that marks
/// a process with the given number as stopped.
#[verifier::external_body]
pub(crate) fn mark_all_stopped(m: &mut DashMap<String, ProcessInfo>, pid: u32)
    ensures
        table_entries(*final(m)) == table_entries(*old(m)).map_values(
            |info: ProcessInfo| marked_stopped(info, pid),
        ),
{
    m.alter_all(|_, info| mark_stopped(info, pid));
}

} // verus!
