//! The files that go into a container in one run: entry names and the paths
//! of their content, and the room they need.

use crate::width::{low_u32, low_u32_of_usize};
use vstd::prelude::*;

verus! {

/// One file to pack: the name of its entry and the path of its content.
#[derive(Debug, PartialEq, Eq)]
pub struct ListedFile {
    pub name: String,
    pub path: String,
}

/// The files to pack, in the order in which they are packed.
pub type FileList = Vec<ListedFile>;

/// Whether every item of a list holds a name and a path at least.
pub open spec fn all_pairs(data: Seq<Vec<String>>) -> bool {
    forall|i: int| 0 <= i < data.len() ==> (#[trigger] data[i]).len() >= 2
}

/// Reads a list of files from its written form, a list of lists of strings:
/// each item gives the name of an entry and then the path of its content,
/// and what follows the two is not looked at. A list with an item that holds
/// fewer than two strings is no list of files.
pub fn generate_file_list(data: &Vec<Vec<String>>) -> (files: Option<FileList>)
    ensures
        files is Some <==> all_pairs(data@),
        files matches Some(list) ==> {
            &&& list.len() == data.len()
            &&& forall|i: int|
                0 <= i < list.len() ==> (#[trigger] list[i]).name@ == data[i][0]@ && list[i].path@
                    == data[i][1]@
        },
{
    let mut files: Vec<ListedFile> = Vec::with_capacity(data.len());
    let mut i: usize = 0;
    while i < data.len()
        invariant
            i <= data.len(),
            files.len() == i,
            forall|j: int| 0 <= j < i ==> (#[trigger] data[j]).len() >= 2,
            forall|j: int|
                0 <= j < i ==> (#[trigger] files[j]).name@ == data[j][0]@ && files[j].path@
                    == data[j][1]@,
        decreases data.len() - i,
    {
        let item = &data[i];
        if item.len() < 2 {
            return None;
        }
        files.push(ListedFile { name: item[0].clone(), path: item[1].clone() });
        i += 1;
    }
    Some(files)
}

/// The room that a container needs once `added` files have joined the
/// `count` entries it has room for, or `None` where the engine cannot count
/// that far. The engine counts in 32 bits, and of a longer list of files the
/// low 32 bits of its length are added.
pub fn grown_capacity(count: u32, added: usize) -> (room: Option<u32>)
    ensures
        room == (if count + low_u32(added as int) <= u32::MAX {
            Some((count + low_u32(added as int)) as u32)
        } else {
            None
        }),
{
    count.checked_add(low_u32_of_usize(added))
}

} // verus!
