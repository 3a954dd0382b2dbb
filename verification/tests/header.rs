use csv_organizer::classify::FileType;
use csv_organizer::header::{inspect, judge, read_headers, HeaderError, Verdict};

fn row(names: &[&str]) -> Vec<String> {
    names.iter().map(|name| name.to_string()).collect()
}

#[test]
fn the_header_row_is_the_first_record() {
    assert_eq!(read_headers(b"id,productName,price\n1,Widget,3\n"), Ok(row(&["id", "productName", "price"])));
    assert_eq!(read_headers(b"sku,Cost"), Ok(row(&["sku", "Cost"])));
}

#[test]
fn quoted_fields_are_unquoted() {
    assert_eq!(read_headers(b"\"a,b\",\"c\"\"d\",e\r\nx,y,z\r\n"), Ok(row(&["a,b", "c\"d", "e"])));
    assert_eq!(read_headers(b"\"two\nlines\",b\n"), Ok(row(&["two\nlines", "b"])));
}

#[test]
fn an_empty_file_has_an_empty_header_row() {
    assert_eq!(read_headers(b""), Ok(row(&[])));
}

#[test]
fn a_header_row_that_is_no_text_is_unreadable() {
    assert_eq!(read_headers(b"id,\xff\xfe,price\n1,2,3\n"), Err(HeaderError::Unreadable));
}

#[test]
fn only_the_header_row_has_to_be_text() {
    assert_eq!(read_headers(b"id,cost\n\xff,\xfe\n"), Ok(row(&["id", "cost"])));
}

#[test]
fn judge_follows_the_header_row() {
    assert_eq!(judge(Ok(row(&["ProductName"]))), Verdict::Known(FileType::Product));
    assert_eq!(judge(Ok(row(&["sku", "COST"]))), Verdict::Known(FileType::ProductCosts));
    assert_eq!(judge(Ok(row(&["notes", "date"]))), Verdict::Unknown);
    assert_eq!(judge(Ok(row(&[]))), Verdict::Unknown);
    assert_eq!(judge(Err(HeaderError::Unreadable)), Verdict::Unreadable);
}

#[test]
fn inspect_reads_and_judges() {
    assert_eq!(inspect(b"id,productName,price\n"), Verdict::Known(FileType::Product));
    assert_eq!(inspect(b"sku,Cost\n9,1\n"), Verdict::Known(FileType::ProductCosts));
    assert_eq!(inspect(b"notes,date\n"), Verdict::Unknown);
    assert_eq!(inspect(b""), Verdict::Unknown);
    assert_eq!(inspect(b"\xc3\x28,cost\n"), Verdict::Unreadable);
}

#[test]
fn columns_of_later_rows_do_not_count() {
    assert_eq!(inspect(b"a,b\nproductname,cost\n"), Verdict::Unknown);
}
