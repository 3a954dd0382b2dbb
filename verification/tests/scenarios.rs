use csv_organizer::location::Location;
use csv_organizer::organizer::Organizer;
use csv_organizer::protocol::{Action, Entry, EntryKind, Event, Fault, Outcome, Remark};
use std::collections::BTreeMap;

#[derive(Clone, Debug, PartialEq)]
enum Node {
    Directory,
    File(Vec<u8>),
}

/// A file system in memory. A directory is listed as it stood when it was opened,
/// in the order of its names.
struct Disk {
    nodes: BTreeMap<Vec<String>, Node>,
    open: Vec<(Vec<String>, Vec<String>, usize)>,
    locked: Vec<Vec<String>>,
    remarks: Vec<(Remark, Vec<String>)>,
    read: Vec<Vec<String>>,
}

fn path(names: &[&str]) -> Vec<String> {
    names.iter().map(|name| name.to_string()).collect()
}

impl Disk {
    fn new() -> Disk {
        let mut nodes = BTreeMap::new();
        nodes.insert(Vec::new(), Node::Directory);
        Disk { nodes, open: Vec::new(), locked: Vec::new(), remarks: Vec::new(), read: Vec::new() }
    }

    fn with_file(mut self, names: &[&str], data: &[u8]) -> Disk {
        for depth in 1..names.len() {
            self.nodes.insert(path(&names[..depth]), Node::Directory);
        }
        self.nodes.insert(path(names), Node::File(data.to_vec()));
        self
    }

    fn with_directory(mut self, names: &[&str]) -> Disk {
        for depth in 1..=names.len() {
            self.nodes.insert(path(&names[..depth]), Node::Directory);
        }
        self
    }

    /// Nothing can be made or put directly inside a locked directory.
    fn with_locked(mut self, names: &[&str]) -> Disk {
        self.locked.push(path(names));
        self
    }

    fn file(&self, names: &[&str]) -> Option<&[u8]> {
        match self.nodes.get(&path(names)) {
            Some(Node::File(data)) => Some(data.as_slice()),
            _ => None,
        }
    }

    fn is_directory(&self, names: &[String]) -> bool {
        self.nodes.get(names) == Some(&Node::Directory)
    }

    fn writable(&self, place: &[String]) -> bool {
        let parent = &place[..place.len() - 1];
        self.is_directory(parent) && !self.locked.iter().any(|locked| locked == parent)
    }

    fn done(ok: bool) -> Event {
        if ok {
            Event::Done
        } else {
            Event::Failed
        }
    }

    fn put(&mut self, from: &[String], to: &[String], keep: bool) -> bool {
        let data = match self.nodes.get(from) {
            Some(Node::File(data)) => data.clone(),
            _ => return false,
        };
        if to.is_empty() || !self.writable(to) || self.is_directory(to) {
            return false;
        }
        if !keep {
            self.nodes.remove(from);
        }
        self.nodes.insert(to.to_vec(), Node::File(data));
        true
    }

    fn perform(&mut self, action: &Action) -> Event {
        match action {
            Action::OpenDirectory { dir } => {
                if !self.is_directory(&dir.names) {
                    return Event::Failed;
                }
                let names = self
                    .nodes
                    .keys()
                    .filter(|key| key.len() == dir.names.len() + 1 && key.starts_with(&dir.names))
                    .map(|key| key[key.len() - 1].clone())
                    .collect();
                self.open.push((dir.names.clone(), names, 0));
                Event::Done
            }
            Action::NextEntry { dir } => {
                let (opened, names, next) = self.open.last_mut().unwrap();
                assert_eq!(*opened, dir.names);
                if *next == names.len() {
                    self.open.pop();
                    return Event::EndOfDirectory;
                }
                let name = names[*next].clone();
                *next += 1;
                let mut place = dir.names.clone();
                place.push(name.clone());
                let kind = match self.nodes.get(&place) {
                    Some(Node::Directory) => EntryKind::Directory,
                    Some(Node::File(_)) => EntryKind::File,
                    None => EntryKind::Other,
                };
                Event::Entry(Entry { name, kind })
            }
            Action::ReadFile { file } => {
                self.read.push(file.names.clone());
                match self.nodes.get(&file.names) {
                    Some(Node::File(data)) => Event::Contents(data.clone()),
                    _ => Event::Failed,
                }
            }
            Action::EnsureDirectory { dir, recursive } => {
                if self.nodes.contains_key(&dir.names) {
                    return Event::Done;
                }
                let first = if *recursive { 1 } else { dir.names.len() };
                for depth in first..=dir.names.len() {
                    let place = &dir.names[..depth];
                    if self.nodes.contains_key(place) {
                        continue;
                    }
                    if !self.writable(place) {
                        return Event::Failed;
                    }
                    self.nodes.insert(place.to_vec(), Node::Directory);
                }
                Event::Done
            }
            Action::CopyFile { from, to } => Disk::done(self.put(&from.names, &to.names, true)),
            Action::MoveFile { from, to } => Disk::done(self.put(&from.names, &to.names, false)),
            Action::Finish { .. } => unreachable!(),
        }
    }

    fn organize(&mut self) -> Outcome {
        let mut organizer = Organizer::new(self.is_directory(&[]));
        let mut action = organizer.request();
        loop {
            if let Action::Finish { outcome } = action {
                assert_eq!(organizer.outcome(), Some(outcome));
                return outcome;
            }
            let event = self.perform(&action);
            let step = organizer.step(event);
            if let Some(notice) = step.notice {
                self.remarks.push((notice.remark, notice.file.names));
            }
            action = step.action;
            assert_eq!(organizer.request(), action);
        }
    }
}

const PRODUCTS: &[u8] = b"id,productName,price\n1,Widget,3\n2,Gadget,5\n";
const COSTS: &[u8] = b"sku,Cost\n1,0.5\n";
const NOTES: &[u8] = b"notes,date\nhello,today\n";

#[test]
fn a_product_file_at_the_top_is_copied_and_then_swept() {
    let mut disk = Disk::new().with_file(&["a.csv"], PRODUCTS);
    assert_eq!(disk.organize(), Outcome::Completed);
    assert_eq!(disk.file(&["Products", "a.csv"]), Some(PRODUCTS));
    assert_eq!(disk.file(&["a.csv"]), None);
    assert_eq!(disk.file(&["Uncategorized", "a.csv"]), Some(PRODUCTS));
    assert_eq!(disk.nodes.len(), 5);
}

#[test]
fn a_nested_file_of_product_costs_is_copied_and_stays() {
    let mut disk = Disk::new().with_file(&["sub", "b.csv"], COSTS);
    assert_eq!(disk.organize(), Outcome::Completed);
    assert_eq!(disk.file(&["sub", "ProductCosts", "b.csv"]), Some(COSTS));
    assert_eq!(disk.file(&["sub", "b.csv"]), Some(COSTS));
    assert_eq!(disk.file(&["sub", "Products", "b.csv"]), None);
    assert_eq!(disk.file(&["Uncategorized", "b.csv"]), None);
    assert!(disk.is_directory(&path(&["Uncategorized"])));
    assert_eq!(disk.nodes.len(), 6);
}

#[test]
fn a_file_without_a_known_column_is_moved_into_the_backup_folder() {
    let mut disk = Disk::new().with_file(&["c.csv"], NOTES);
    assert_eq!(disk.organize(), Outcome::Completed);
    assert_eq!(disk.file(&["UncategorizedBackups", "c.csv"]), Some(NOTES));
    assert_eq!(disk.file(&["c.csv"]), None);
    assert_eq!(disk.file(&["Uncategorized", "c.csv"]), None);
    assert_eq!(
        disk.remarks,
        vec![(Remark::Processing, path(&["c.csv"])), (Remark::UnknownType, path(&["c.csv"]))]
    );
}

#[test]
fn a_file_that_is_no_csv_file_is_never_touched() {
    let mut disk = Disk::new().with_file(&["readme.txt"], b"productname,cost\n");
    let before = disk.nodes.get(&path(&["readme.txt"])).cloned();
    assert_eq!(disk.organize(), Outcome::Completed);
    assert_eq!(disk.nodes.get(&path(&["readme.txt"])).cloned(), before);
    assert!(disk.read.is_empty());
    assert_eq!(disk.nodes.len(), 3);
    assert_eq!(disk.remarks, vec![(Remark::Processing, path(&["readme.txt"]))]);
}

#[test]
fn a_copy_holds_the_bytes_of_its_source() {
    let data: Vec<u8> = b"productname,blob\n".iter().copied().chain(0..=255).collect();
    let mut disk = Disk::new().with_file(&["deep", "er", "a.csv"], &data);
    assert_eq!(disk.organize(), Outcome::Completed);
    assert_eq!(disk.file(&["deep", "er", "Products", "a.csv"]), Some(data.as_slice()));
    assert_eq!(disk.file(&["deep", "er", "a.csv"]), Some(data.as_slice()));
}

#[test]
fn a_second_run_over_an_organized_tree_completes() {
    let mut disk = Disk::new()
        .with_file(&["a.csv"], PRODUCTS)
        .with_file(&["sub", "b.csv"], COSTS)
        .with_file(&["c.csv"], NOTES);
    assert_eq!(disk.organize(), Outcome::Completed);
    let kept = disk.nodes.clone();
    assert_eq!(disk.organize(), Outcome::Completed);
    for (place, node) in kept.iter() {
        if let Node::File(data) = node {
            let still = disk.nodes.values().any(|other| *other == Node::File(data.clone()));
            assert!(still, "{:?}", place);
        }
    }
    assert_eq!(disk.file(&["Products", "a.csv"]), Some(PRODUCTS));
    assert_eq!(disk.file(&["sub", "ProductCosts", "b.csv"]), Some(COSTS));
    assert_eq!(disk.organize(), Outcome::Completed);
}

#[test]
fn a_copy_replaces_an_older_file_of_the_same_name() {
    let mut disk = Disk::new()
        .with_file(&["sub", "Products", "a.csv"], b"old\n")
        .with_file(&["sub", "a.csv"], PRODUCTS);
    assert_eq!(disk.organize(), Outcome::Completed);
    assert_eq!(disk.file(&["sub", "Products", "a.csv"]), Some(PRODUCTS));
    assert_eq!(disk.file(&["sub", "a.csv"]), Some(PRODUCTS));
}

#[test]
fn a_file_in_place_of_the_folder_sends_the_copy_to_the_backup_folder() {
    let mut disk = Disk::new()
        .with_file(&["sub", "a.csv"], PRODUCTS)
        .with_file(&["sub", "Products"], b"in the way");
    assert_eq!(disk.organize(), Outcome::Completed);
    assert_eq!(disk.file(&["sub", "UncategorizedBackups", "a.csv"]), Some(PRODUCTS));
    assert_eq!(disk.file(&["sub", "a.csv"]), None);
    assert_eq!(disk.file(&["sub", "Products"]), Some(&b"in the way"[..]));
    assert!(disk.remarks.contains(&(Remark::CopyFailed, path(&["sub", "a.csv"]))));
}

#[test]
fn a_locked_directory_ends_the_run_at_the_backup_folder() {
    let mut disk =
        Disk::new().with_file(&["sub", "c.csv"], NOTES).with_locked(&["sub"]);
    assert_eq!(disk.organize(), Outcome::Fatal(Fault::DirectoryNotCreated));
    assert_eq!(disk.file(&["sub", "c.csv"]), Some(NOTES));
    assert!(!disk.is_directory(&path(&["Uncategorized"])));
}

#[test]
fn a_move_that_fails_leaves_the_file_and_the_run_goes_on() {
    let mut disk = Disk::new()
        .with_file(&["sub", "c.csv"], NOTES)
        .with_file(&["sub", "d.csv"], COSTS)
        .with_directory(&["sub", "UncategorizedBackups", "c.csv"]);
    assert_eq!(disk.organize(), Outcome::Completed);
    assert_eq!(disk.file(&["sub", "c.csv"]), Some(NOTES));
    assert_eq!(disk.file(&["sub", "ProductCosts", "d.csv"]), Some(COSTS));
    assert!(disk.remarks.contains(&(Remark::MoveFailed, path(&["sub", "c.csv"]))));
}

#[test]
fn a_file_with_an_unreadable_header_row_stays_where_it_is() {
    let mut disk = Disk::new()
        .with_file(&["sub", "bad.csv"], b"\xff\xfe,cost\n")
        .with_file(&["sub", "good.csv"], COSTS);
    assert_eq!(disk.organize(), Outcome::Completed);
    assert_eq!(disk.file(&["sub", "bad.csv"]), Some(&b"\xff\xfe,cost\n"[..]));
    assert_eq!(disk.file(&["sub", "UncategorizedBackups", "bad.csv"]), None);
    assert_eq!(disk.file(&["sub", "ProductCosts", "good.csv"]), Some(COSTS));
    assert!(disk.remarks.contains(&(Remark::HeadersUnreadable, path(&["sub", "bad.csv"]))));
}

#[test]
fn a_path_that_is_no_directory_ends_the_run() {
    let mut disk = Disk::new();
    disk.nodes.clear();
    assert_eq!(disk.organize(), Outcome::Fatal(Fault::DirectoryNotCreated));
    assert!(disk.nodes.is_empty());
}

#[test]
fn a_leftover_folder_that_cannot_be_made_ends_the_run() {
    let mut disk = Disk::new().with_file(&["readme.txt"], b"x").with_locked(&[]);
    assert_eq!(disk.organize(), Outcome::Fatal(Fault::DirectoryNotCreated));
}

#[test]
fn directories_are_walked_depth_first_in_the_order_listed() {
    let mut disk = Disk::new()
        .with_file(&["a", "1.log"], b"")
        .with_file(&["a", "b", "2.log"], b"")
        .with_file(&["a", "c.log"], b"")
        .with_file(&["d.log"], b"");
    assert_eq!(disk.organize(), Outcome::Completed);
    assert_eq!(
        disk.remarks,
        vec![
            (Remark::Processing, path(&["a", "1.log"])),
            (Remark::Processing, path(&["a", "b", "2.log"])),
            (Remark::Processing, path(&["a", "c.log"])),
            (Remark::Processing, path(&["d.log"])),
        ]
    );
}

#[test]
fn only_the_top_is_swept() {
    let mut disk = Disk::new()
        .with_file(&["top.csv"], COSTS)
        .with_file(&["sub", "nested.csv"], COSTS)
        .with_file(&["sub", "deeper", "nested.csv"], PRODUCTS);
    assert_eq!(disk.organize(), Outcome::Completed);
    assert_eq!(disk.file(&["top.csv"]), None);
    assert_eq!(disk.file(&["Uncategorized", "top.csv"]), Some(COSTS));
    assert_eq!(disk.file(&["ProductCosts", "top.csv"]), Some(COSTS));
    assert_eq!(disk.file(&["sub", "nested.csv"]), Some(COSTS));
    assert_eq!(disk.file(&["sub", "deeper", "nested.csv"]), Some(PRODUCTS));
    assert_eq!(disk.file(&["sub", "Uncategorized", "nested.csv"]), None);
}

#[test]
fn locations_name_every_directory_on_the_way() {
    let place = Location { names: path(&["a", "b"]) };
    assert_eq!(place.join("c.csv").names, path(&["a", "b", "c.csv"]));
}
