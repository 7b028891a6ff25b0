use vstd::prelude::*;
use crate::paths::{is_input_file_name, is_input_name};

verus! {

/// What a directory entry is, as the file system reports it without
/// following a symbolic link.
#[derive(Clone, Copy, Debug, PartialEq, Eq, Structural)]
pub enum EntryKind {
    Directory,
    File,
    /// A symbolic link, a device, a socket or anything else.
    Other,
}

/// What the walk does with a directory entry.
#[derive(Clone, Copy, Debug, PartialEq, Eq, Structural)]
pub enum EntryRole {
    /// Walk into it.
    Descend,
    /// Convert it.
    Collect,
    /// Leave it.
    Pass,
}

pub open spec fn role_of(kind: EntryKind, name: Seq<u8>) -> EntryRole {
    match kind {
        EntryKind::Directory => EntryRole::Descend,
        EntryKind::File => if is_input_name(name) {
            EntryRole::Collect
        } else {
            EntryRole::Pass
        },
        EntryKind::Other => EntryRole::Pass,
    }
}

/// Directories are walked into, regular files whose extension is `png` are
/// collected, and the rest, symbolic links included, is passed over, so a
/// link cannot lead the walk in a circle.
pub fn entry_role(kind: EntryKind, name: &Vec<u8>) -> (r: EntryRole)
    ensures
        r == role_of(kind, name@),
{
    match kind {
        EntryKind::Directory => EntryRole::Descend,
        EntryKind::File => if is_input_file_name(name) {
            EntryRole::Collect
        } else {
            EntryRole::Pass
        },
        EntryKind::Other => EntryRole::Pass,
    }
}

} // verus!
