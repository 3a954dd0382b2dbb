//! Telling what a CSV file holds from the names of its columns.

use crate::location::same_text;
use vstd::prelude::*;

verus! {

/// What a CSV file holds.
#[derive(Clone, Copy, Debug, PartialEq, Eq, Structural)]
pub enum FileType {
    Product,
    ProductCosts,
}

impl FileType {
    /// The name of the folder that gathers the files of this kind.
    pub open spec fn directory_name(self) -> Seq<char> {
        match self {
            FileType::Product => "Products"@,
            FileType::ProductCosts => "ProductCosts"@,
        }
    }

    /// The name of the folder that gathers the files of this kind.
    pub fn directory(self) -> (name: &'static str)
        ensures
            name@ == self.directory_name(),
    {
        match self {
            FileType::Product => "Products",
            FileType::ProductCosts => "ProductCosts",
        }
    }
}

/// The lower-case form of a text, as `str::to_lowercase` of the standard library
/// gives it.
pub uninterp spec fn lowercase_of(text: Seq<char>) -> Seq<char>;

/// `str::to_lowercase` is taken on trust: it returns the lower-case form of its
/// argument, and that form depends on the characters of the argument alone.
pub assume_specification[ str::to_lowercase ](text: &str) -> (lowered: String)
    ensures
        lowered@ == lowercase_of(text@),
;

/// The kind of file that a set of column names, already in lower case, stands
/// for. The rules are tried in this order and the first that fits decides.
pub open spec fn classification(columns: Set<Seq<char>>) -> Option<FileType> {
    if columns.contains("productname"@) {
        Some(FileType::Product)
    } else if columns.contains("cost"@) {
        Some(FileType::ProductCosts)
    } else {
        None
    }
}

/// A header row with each name in lower case.
pub open spec fn lowered(headers: Seq<Seq<char>>) -> Seq<Seq<char>> {
    Seq::new(headers.len(), |i: int| lowercase_of(headers[i]))
}

/// The kind of file that a header row stands for: its names count in lower case,
/// and neither their order nor their number of occurrences matters.
pub open spec fn file_type_of(headers: Seq<Seq<char>>) -> Option<FileType> {
    classification(lowered(headers).to_set())
}

/// Whether `column` is among `columns`, letter for letter.
pub fn names_column(columns: &Vec<String>, column: &str) -> (found: bool)
    ensures
        found == columns.deep_view().to_set().contains(column@),
{
    let mut i: usize = 0;
    while i < columns.len()
        invariant
            i <= columns.len(),
            forall|j: int| 0 <= j < i ==> columns[j]@ != column@,
        decreases columns.len() - i,
    {
        if same_text(columns[i].as_str(), column) {
            assert(columns.deep_view()[i as int] == column@);
            return true;
        }
        i += 1;
    }
    assert forall|j: int| 0 <= j < columns.deep_view().len() implies columns.deep_view()[j]
        != column@ by {
        assert(columns.deep_view()[j] == columns[j]@);
    }
    false
}

/// Classifies a file by its column names, which must already be in lower case.
pub fn classify(columns: &Vec<String>) -> (category: Option<FileType>)
    ensures
        category == classification(columns.deep_view().to_set()),
{
    if names_column(columns, "productname") {
        Some(FileType::Product)
    } else if names_column(columns, "cost") {
        Some(FileType::ProductCosts)
    } else {
        None
    }
}

/// Puts every name of a header row into lower case.
pub fn lowercase_all(headers: &Vec<String>) -> (columns: Vec<String>)
    ensures
        columns.deep_view() == lowered(headers.deep_view()),
{
    let mut columns: Vec<String> = Vec::new();
    let mut i: usize = 0;
    while i < headers.len()
        invariant
            i <= headers.len(),
            columns.len() == i,
            forall|j: int| 0 <= j < i ==> columns[j]@ == lowercase_of(headers[j]@),
        decreases headers.len() - i,
    {
        columns.push(headers[i].as_str().to_lowercase());
        i += 1;
    }
    assert(columns.deep_view() =~= lowered(headers.deep_view()));
    columns
}

/// Classifies a file by its header row, whatever the case of the names in it.
pub fn determine_file_type(headers: &Vec<String>) -> (category: Option<FileType>)
    ensures
        category == file_type_of(headers.deep_view()),
{
    let columns = lowercase_all(headers);
    classify(&columns)
}

/// A header row with a column that reads `productname` once in lower case stands
/// for a product file, whatever other columns it has.
pub proof fn lemma_product_name_decides(headers: Seq<Seq<char>>, column: int)
    requires
        0 <= column < headers.len(),
        lowercase_of(headers[column]) == "productname"@,
    ensures
        file_type_of(headers) == Some(FileType::Product),
{
    assert(lowered(headers)[column] == "productname"@);
}

/// A header row with a column that reads `cost` once in lower case, and none that
/// reads `productname`, stands for a file of product costs.
pub proof fn lemma_cost_decides_without_product_name(headers: Seq<Seq<char>>, column: int)
    requires
        0 <= column < headers.len(),
        lowercase_of(headers[column]) == "cost"@,
        forall|i: int| 0 <= i < headers.len() ==> lowercase_of(headers[i]) != "productname"@,
    ensures
        file_type_of(headers) == Some(FileType::ProductCosts),
{
    assert(lowered(headers)[column] == "cost"@);
}

/// A header row in which no column reads `productname` or `cost` once in lower
/// case stands for no known kind of file.
pub proof fn lemma_no_signature_column(headers: Seq<Seq<char>>)
    requires
        forall|i: int|
            0 <= i < headers.len() ==> lowercase_of(headers[i]) != "productname"@
                && lowercase_of(headers[i]) != "cost"@,
    ensures
        file_type_of(headers) is None,
{
}

/// Two header rows that hold the same names once in lower case, in whatever order
/// and however often, stand for the same kind of file.
pub proof fn lemma_order_is_irrelevant(first: Seq<Seq<char>>, second: Seq<Seq<char>>)
    requires
        lowered(first).to_set() == lowered(second).to_set(),
    ensures
        file_type_of(first) == file_type_of(second),
{
}

} // verus!
