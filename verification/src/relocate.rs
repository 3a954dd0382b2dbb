//! Where a file goes when it is copied into the folder of its kind or moved out
//! of the way.

use crate::location::Location;
use vstd::prelude::*;
use vstd::string::*;

verus! {

/// One file on its way into a folder beside it.
#[derive(Debug, PartialEq, Eq)]
pub struct Relocation {
    /// The folder that receives the file; it may have to be made first.
    pub directory: Location,
    /// The file as it stands.
    pub from: Location,
    /// The file as it will stand in the folder, under its own name.
    pub to: Location,
}

/// A `Relocation` as contracts see it.
pub struct RelocationView {
    pub directory: Seq<Seq<char>>,
    pub from: Seq<Seq<char>>,
    pub to: Seq<Seq<char>>,
}

impl View for Relocation {
    type V = RelocationView;

    open spec fn view(&self) -> RelocationView {
        RelocationView { directory: self.directory@, from: self.from@, to: self.to@ }
    }
}

/// The folder into which files go that no kind was found for, or that could not
/// be copied into the folder of their kind.
pub open spec fn backup_folder() -> Seq<char> {
    "UncategorizedBackups"@
}

/// The folder into which the CSV files go that are still in the scanned directory
/// once the whole tree was visited.
pub open spec fn leftover_folder() -> Seq<char> {
    "Uncategorized"@
}

/// The way of the file `name` of the directory `dir` into the folder `folder` of
/// that same directory.
pub open spec fn relocation(dir: Seq<Seq<char>>, name: Seq<char>, folder: Seq<char>)
    -> RelocationView {
    RelocationView {
        directory: dir.push(folder),
        from: dir.push(name),
        to: dir.push(folder).push(name),
    }
}

/// The way of `file` into the folder `folder` beside it.
pub open spec fn relocation_of(file: Seq<Seq<char>>, folder: Seq<char>) -> RelocationView {
    relocation(file.drop_last(), file.last(), folder)
}

/// Plans the way of `file` into the folder `folder` beside it.
fn relocate(file: &Location, folder: &str) -> (plan: Relocation)
    requires
        file@.len() > 0,
    ensures
        plan@ == relocation_of(file@, folder@),
{
    let last = file.names.len() - 1;
    let name = file.names[last].clone();
    let mut directory = file.clone();
    directory.leave();
    directory.enter(String::from_str(folder));
    let mut to = directory.clone();
    to.enter(name);
    let from = file.clone();
    proof {
        assert(file@.last() == file.names[last as int]@);
        assert(from@ =~= file@.drop_last().push(file@.last()));
    }
    Relocation { directory, from, to }
}

/// Plans the copy of `file` into the folder `destination_dir` of the directory
/// that holds it: the folder, which is made with all that leads to it where it
/// is missing, and the copy's place in it. The file itself stays.
pub fn copy_file(file: &Location, destination_dir: &str) -> (plan: Relocation)
    requires
        file@.len() > 0,
    ensures
        plan@ == relocation_of(file@, destination_dir@),
{
    relocate(file, destination_dir)
}

/// Plans the move of `file` into the backup folder of the directory that holds
/// it.
pub fn move_to_uncategorized(file: &Location) -> (plan: Relocation)
    requires
        file@.len() > 0,
    ensures
        plan@ == relocation_of(file@, backup_folder()),
{
    relocate(file, "UncategorizedBackups")
}

/// Plans the move of a file that was left over into the leftover folder of the
/// directory that holds it.
pub fn move_leftover(file: &Location) -> (plan: Relocation)
    requires
        file@.len() > 0,
    ensures
        plan@ == relocation_of(file@, leftover_folder()),
{
    relocate(file, "Uncategorized")
}

} // verus!
