use paperjet::pages::{slice_range, split_for_duplex, PageRangeError};

#[test]
fn pdf_if_empty_source_then_err() {
    assert!(slice_range(0, Some(0), Some(0)).is_err(), "slice_document should return Err, but returned Ok");
    assert!(slice_range(0, Some(0), Some(5)).is_err(), "slice_document should return Err, but returned Ok");
    assert!(slice_range(0, Some(5), Some(0)).is_err(), "slice_document should return Err, but returned Ok");
}

#[test]
fn pdf_if_source_has_pages_and_valid_range_then_ok() {
    let pages_len = 5;
    let (first, last) = slice_range(pages_len, Some(2), Some(3)).expect("Could not slice document");
    assert_eq!(2, last - first + 1, "sliced document must have {} pages, has: {}", 2, last - first + 1);
    let (first, last) = slice_range(pages_len, Some(1), Some(5)).expect("Could not slice document");
    assert_eq!(5, last - first + 1, "sliced document must have {} pages, has: {}", 5, last - first + 1);
}

#[test]
fn pdf_if_source_has_pages_and_invalid_range_then_err() {
    let pages_len = 5;
    let result = slice_range(pages_len, Some(0), Some(3));
    assert!(result.is_err(), "range starting with 0 is invalid, but Ok was returned");
    let result = slice_range(pages_len, Some(1), Some(6));
    assert!(result.is_err(), "range ending with 6 is invalid (as document has {pages_len} pages), but Ok was returned");
    let result = slice_range(pages_len, Some(4), Some(2));
    assert!(result.is_err(), "range is empty, but Ok was returned");
}

#[test]
fn pdf_if_source_has_exactly_one_page_and_some_range_then_returns_correct_result() {
    let (first, last) = slice_range(1, Some(1), Some(1)).expect("valid range must return Ok");
    assert_eq!(1, last - first + 1, "sliced document must have {} page, but has: {}", 1, last - first + 1);
    assert!(slice_range(1, Some(0), Some(1)).is_err(), "range is invalid, but Ok was returned");
    assert!(slice_range(1, Some(1), Some(2)).is_err(), "range is invalid, but Ok was returned");
    assert!(slice_range(1, Some(0), Some(2)).is_err(), "range is invalid, but Ok was returned");
    assert!(slice_range(1, Some(2), Some(1)).is_err(), "range is invalid, but Ok was returned");
}


#[test]
fn slice_if_empty_source_then_err() {
    assert!(slice_range(0, Some(0), Some(0)).is_err(), "slice_document should return Err, but returned Ok");
    assert!(slice_range(0, Some(0), Some(5)).is_err(), "slice_document should return Err, but returned Ok");
    assert!(slice_range(0, Some(5), Some(0)).is_err(), "slice_document should return Err, but returned Ok");
}

#[test]
fn slice_if_source_has_pages_and_valid_range_then_ok() {
    let pages_len = 5;
    let (first, last) = slice_range(pages_len, Some(2), Some(3)).expect("Could not slice document");
    assert_eq!(2, last - first + 1, "sliced document must have {} pages, has: {}", 2, last - first + 1);
    let (first, last) = slice_range(pages_len, Some(1), Some(5)).expect("Could not slice document");
    assert_eq!(5, last - first + 1, "sliced document must have {} pages, has: {}", 5, last - first + 1);
}

#[test]
fn slice_if_source_has_pages_and_invalid_range_then_err() {
    let pages_len = 5;
    let result = slice_range(pages_len, Some(0), Some(3));
    assert!(result.is_err(), "range starting with 0 is invalid, but Ok was returned");
    let result = slice_range(pages_len, Some(1), Some(6));
    assert!(result.is_err(), "range ending with 6 is invalid (as document has {pages_len} pages), but Ok was returned");
    let result = slice_range(pages_len, Some(4), Some(2));
    assert!(result.is_err(), "range is empty, but Ok was returned");
}

#[test]
fn slice_if_source_has_exactly_one_page_and_some_range_then_returns_correct_result() {
    let (first, last) = slice_range(1, Some(1), Some(1)).expect("valid range must return Ok");
    assert_eq!(1, last - first + 1, "sliced document must have {} page, but has: {}", 1, last - first + 1);
    assert!(slice_range(1, Some(0), Some(1)).is_err(), "range is invalid, but Ok was returned");
    assert!(slice_range(1, Some(1), Some(2)).is_err(), "range is invalid, but Ok was returned");
    assert!(slice_range(1, Some(0), Some(2)).is_err(), "range is invalid, but Ok was returned");
    assert!(slice_range(1, Some(2), Some(1)).is_err(), "range is invalid, but Ok was returned");
}


#[test]
fn slice_reports_the_failed_check() {
    assert_eq!(slice_range(0, None, None), Err(PageRangeError::EmptyDocument));
    assert_eq!(slice_range(5, Some(0), None), Err(PageRangeError::StartBelowOne { start: 0 }));
    assert_eq!(slice_range(5, Some(6), None), Err(PageRangeError::StartAfterLastPage { pages: 5, start: 6 }));
    assert_eq!(slice_range(5, None, Some(7)), Err(PageRangeError::EndAfterLastPage { pages: 5, end: 7 }));
    assert_eq!(slice_range(5, Some(4), Some(2)), Err(PageRangeError::EmptyRange { start: 4, end: 2 }));
    assert_eq!(slice_range(5, None, None), Ok((0, 4)));
    assert_eq!(slice_range(5, Some(3), None), Ok((2, 4)));
    assert_eq!(slice_range(5, None, Some(2)), Ok((0, 1)));
}

#[test]
fn if_empty_pdf_then_split_returns_err() {
    assert!(split_for_duplex(0).is_err(), "split_pdf should return an error, but didn't");
}

#[test]
fn if_pdf_with_one_page_then_split_returns_err() {
    assert!(split_for_duplex(1).is_err(), "split_pdf should return an error, but didn't");
}

#[test]
fn if_pdf_with_two_pages_then_split_returns_ok() {
    let result = split_for_duplex(2);
    assert!(result.is_ok(), "split_pdf should return Ok, but returned: {result:?}");
}

#[test]
fn if_pdf_with_even_amount_of_pages_then_split_returns_documents_with_same_length() {
    let plan = split_for_duplex(4).expect("Could not split PDF");
    let back_len = plan.back.len() + usize::from(plan.pad_back);
    assert_eq!(plan.front.len(), back_len, "front and back must have the same amount of pages");
}

#[test]
fn if_pdf_with_uneven_amount_of_pages_then_split_returns_documents_with_same_length() {
    let plan = split_for_duplex(5).expect("Could not split PDF");
    let back_len = plan.back.len() + usize::from(plan.pad_back);
    assert_eq!(plan.front.len(), back_len, "front and back must have the same amount of pages");
}

#[test]
fn if_diff_amount_of_pages_then_align_should_even_out_amount_of_pages() {
    let plan = split_for_duplex(5).expect("Could not align front and back");
    assert_eq!(plan.front.len(), 3, "front pages amount must remain unchanged");
    assert_eq!(plan.back.len(), 2);
    assert!(plan.pad_back, "back pages amount must increase by one");
    assert_eq!(plan.front.len(), plan.back.len() + 1, "front and back must have the same number of pages after aligning");
}

#[test]
fn if_same_amount_of_pages_then_align_should_not_change_amount_of_pages() {
    let plan = split_for_duplex(4).expect("Could not align front and back");
    assert_eq!(plan.front.len(), 2, "front pages amount must remain unchanged");
    assert_eq!(plan.back.len(), 2, "back pages amount must remain unchanged");
    assert!(!plan.pad_back, "front and back must have the same number of pages after aligning");
}

#[test]
fn duplex_plan_orders_pages() {
    let plan = split_for_duplex(5).expect("splits");
    assert_eq!(plan.front, vec![0, 2, 4]);
    assert_eq!(plan.back, vec![3, 1]);
    assert!(plan.pad_back);
    let plan = split_for_duplex(6).expect("splits");
    assert_eq!(plan.front, vec![0, 2, 4]);
    assert_eq!(plan.back, vec![5, 3, 1]);
    assert!(!plan.pad_back);
    assert_eq!(split_for_duplex(1).err(), Some(1));
}
