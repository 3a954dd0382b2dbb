//! Places below the scanned directory, and what a file's name says of its kind.

use vstd::prelude::*;
use vstd::string::*;

verus! {

/// A place below the scanned directory: the names to pass through on the way
/// down, the entry's own name last. The scanned directory itself has no names.
#[derive(Debug, PartialEq, Eq)]
pub struct Location {
    pub names: Vec<String>,
}

impl View for Location {
    type V = Seq<Seq<char>>;

    open spec fn view(&self) -> Seq<Seq<char>> {
        self.names.deep_view()
    }
}

impl Clone for Location {
    fn clone(&self) -> (copy: Self)
        ensures
            copy@ == self@,
    {
        let mut names: Vec<String> = Vec::new();
        let mut i: usize = 0;
        while i < self.names.len()
            invariant
                i <= self.names.len(),
                names.len() == i,
                forall|j: int| 0 <= j < i ==> names[j]@ == self.names[j]@,
            decreases self.names.len() - i,
        {
            names.push(self.names[i].clone());
            i += 1;
        }
        assert(names.deep_view() =~= self.names.deep_view());
        Location { names }
    }
}

impl Location {
    /// The scanned directory itself.
    pub fn root() -> (location: Location)
        ensures
            location@ == Seq::<Seq<char>>::empty(),
    {
        let location = Location { names: Vec::new() };
        assert(location@ =~= Seq::<Seq<char>>::empty());
        location
    }

    /// Whether this is the scanned directory itself.
    pub fn is_root(&self) -> (yes: bool)
        ensures
            yes == (self@.len() == 0),
    {
        self.names.len() == 0
    }

    /// The entry called `name` in this directory.
    pub fn join(&self, name: &str) -> (location: Location)
        ensures
            location@ == self@.push(name@),
    {
        let mut location = self.clone();
        location.enter(String::from_str(name));
        location
    }

    /// Steps down into the entry called `name`.
    pub fn enter(&mut self, name: String)
        ensures
            final(self)@ == old(self)@.push(name@),
    {
        self.names.push(name);
        assert(self@ =~= old(self)@.push(name@));
    }

    /// Steps back up to the directory that holds this entry; the scanned
    /// directory stays where it is.
    pub fn leave(&mut self)
        ensures
            final(self)@ == if old(self)@.len() == 0 {
                old(self)@
            } else {
                old(self)@.drop_last()
            },
    {
        if self.names.len() > 0 {
            self.names.pop();
            assert(self@ =~= old(self)@.drop_last());
        }
    }
}

/// What follows the last dot of a file name, where the name has a dot that is not
/// its first character; `..` has none.
pub open spec fn extension_of(name: Seq<char>) -> Option<Seq<char>> {
    match name.index_of_last('.') {
        Some(dot) => if dot > 0 && name != seq!['.', '.'] {
            Some(name.skip(dot + 1))
        } else {
            None
        },
        None => None,
    }
}

/// Whether a file name marks a CSV file: its extension is exactly `csv`, in
/// lower case.
pub open spec fn is_csv_name(name: Seq<char>) -> bool {
    extension_of(name) == Some("csv"@)
}

/// Whether two texts hold the same characters.
pub fn same_text(left: &str, right: &str) -> (same: bool)
    ensures
        same == (left@ == right@),
{
    let left_owned = String::from_str(left);
    let right_owned = String::from_str(right);
    left_owned == right_owned
}

/// Whether the file called `name` is to be read as CSV.
pub fn has_csv_extension(name: &str) -> (yes: bool)
    ensures
        yes == is_csv_name(name@),
{
    let length = name.unicode_len();
    proof {
        reveal_strlit("csv");
        reveal_strlit(".csv");
        name@.index_of_last_ensures('.');
    }
    if length < 5 {
        proof {
            if is_csv_name(name@) {
                let found = name@.index_of_last('.').unwrap();
                assert(name@.skip(found + 1).len() == 3);
            }
        }
        return false;
    }
    let tail = name.substring_char(length - 4, length);
    let yes = same_text(tail, ".csv");
    proof {
        let dot = length - 4;
        if yes {
            assert(tail@[0] == '.' && tail@[1] == 'c' && tail@[2] == 's' && tail@[3] == 'v');
            assert(name@[dot] == '.' && name@[dot + 1] == 'c' && name@[dot + 2] == 's'
                && name@[dot + 3] == 'v');
            assert(name@.contains('.'));
            assert(name@.index_of_last('.') == Some(dot as int));
            assert(name@.skip(dot + 1) =~= "csv"@);
        } else if is_csv_name(name@) {
            let found = name@.index_of_last('.').unwrap();
            assert(name@.skip(found + 1).len() == 3);
            assert(found == dot);
            assert(name@.skip(found + 1)[0] == 'c');
            assert(name@.skip(found + 1)[1] == 's');
            assert(name@.skip(found + 1)[2] == 'v');
            assert(tail@ =~= ".csv"@);
        }
    }
    yes
}

} // verus!
