use congress_gov::bills::{BillTextVersionAbbreviation, BillType};
use congress_gov::feed::{bill_items_from_titles, parse_bill_item, BillItem, BillItems, FeedErrors};

fn assert_same(x: &BillItem, y: &BillItem) {
    assert_eq!(x.bill_type, y.bill_type);
    assert_eq!(x.bill_number, y.bill_number);
    assert_eq!(x.bill_version, y.bill_version);
    assert_eq!(x.title, y.title);
}

#[test]
fn test_bill_type_parsing() {
    let input = "H.R. 7261 (IH) - Reimagining Inclusive Arts Education Act";
    let item = parse_bill_item(input);
    assert_eq!(item.bill_type, Ok(BillType::HR));
    assert_eq!(item.bill_number, Ok(7261));
    assert_eq!(item.bill_version, "IH");
    assert_eq!(item.title, "Reimagining Inclusive Arts Education Act");
}

#[test]
fn unknown_type_token_keeps_other_fields() {
    let item = parse_bill_item("XYZ 42 (IH) - Some Title");
    assert_eq!(item.bill_type, Err(FeedErrors::MatchError));
    assert_eq!(item.bill_number, Ok(42));
    assert_eq!(item.bill_version, "IH");
    assert_eq!(item.title, "Some Title");
}

#[test]
fn number_too_large_gives_parse_error() {
    let item = parse_bill_item("S. 99999999999 (IS) - A Title");
    assert_eq!(item.bill_type, Ok(BillType::S));
    assert_eq!(item.bill_number, Err(FeedErrors::ParseError));
    assert_eq!(item.bill_version, "IS");
    assert_eq!(item.title, "A Title");
}

#[test]
fn largest_number_is_read() {
    let item = parse_bill_item("S 2147483647 (IS) - T");
    assert_eq!(item.bill_number, Ok(2147483647));
    let item = parse_bill_item("S 2147483648 (IS) - T");
    assert_eq!(item.bill_number, Err(FeedErrors::ParseError));
    let item = parse_bill_item("S 007 (IS) - T");
    assert_eq!(item.bill_number, Ok(7));
}

#[test]
fn non_breaking_spaces_read_as_spaces() {
    let plain = parse_bill_item("H.R. 7261 (IH) - Title");
    let nbsp = parse_bill_item("H.R.\u{a0}7261\u{a0}(IH) - Title");
    assert_same(&plain, &nbsp);
    assert_eq!(nbsp.bill_type, Ok(BillType::HR));
    assert_eq!(nbsp.bill_number, Ok(7261));
    assert_eq!(nbsp.title, "Title");
}

#[test]
fn parsing_twice_gives_the_same_record() {
    let line = "H. Res. 1050 (ATH) - Expressing support";
    let x = parse_bill_item(line);
    let y = parse_bill_item(line);
    assert_same(&x, &y);
    assert_eq!(x.bill_type, Ok(BillType::HRES));
}

#[test]
fn every_type_code_round_trips() {
    let all = [
        BillType::HR,
        BillType::S,
        BillType::HJRES,
        BillType::SJRES,
        BillType::HCONRES,
        BillType::SCONRES,
        BillType::HRES,
        BillType::SRES,
    ];
    for bt in all {
        let line = format!("{} 12 (IH) - T", bt.to_string());
        let item = parse_bill_item(&line);
        assert_eq!(item.bill_type, Ok(bt));
    }
    assert_eq!(BillType::HCONRES.to_string(), "HCONRES");
}

#[test]
fn dotted_and_lower_case_type_tokens() {
    assert_eq!(parse_bill_item("H.J.Res. 5 (IH) - T").bill_type, Ok(BillType::HJRES));
    assert_eq!(parse_bill_item("s. con. res. 5 (IS) - T").bill_type, Ok(BillType::SCONRES));
    assert_eq!(parse_bill_item("S. Res. 5 (IS) - T").bill_type, Ok(BillType::SRES));
}

#[test]
fn empty_line_gives_all_error_record() {
    let item = parse_bill_item("");
    assert_eq!(item.bill_type, Err(FeedErrors::MatchError));
    assert_eq!(item.bill_number, Err(FeedErrors::ParseError));
    assert_eq!(item.bill_version, "");
    assert_eq!(item.title, "");
}

#[test]
fn missing_version_marker_gives_all_error_record() {
    let item = parse_bill_item("H.R. 7261 - Some Act");
    assert_eq!(item.bill_type, Err(FeedErrors::MatchError));
    assert_eq!(item.bill_number, Err(FeedErrors::ParseError));
    assert_eq!(item.bill_version, "");
    assert_eq!(item.title, "H.R. 7261 - Some Act");
}

#[test]
fn missing_number_gives_parse_error() {
    let item = parse_bill_item("H.R. (IH) - Some Act");
    assert_eq!(item.bill_number, Err(FeedErrors::ParseError));
    assert_eq!(item.bill_type, Ok(BillType::HR));
    assert_eq!(item.bill_version, "IH");
    assert_eq!(item.title, "Some Act");
}

#[test]
fn non_numeric_number_gives_parse_error() {
    let item = parse_bill_item("H.R. 72a1 (IH) - Title");
    assert_eq!(item.bill_number, Err(FeedErrors::ParseError));
    assert_eq!(item.bill_type, Ok(BillType::HR));
    assert_eq!(item.bill_version, "IH");
    assert_eq!(item.title, "Title");
}

#[test]
fn digits_of_another_script_give_parse_error() {
    let item = parse_bill_item("H.R. \u{667}\u{662} (IH) - T");
    assert_eq!(item.bill_number, Err(FeedErrors::ParseError));
    assert_eq!(item.bill_type, Ok(BillType::HR));
    assert_eq!(item.bill_version, "IH");
    assert_eq!(item.title, "T");
}

#[test]
fn unicode_version_code_is_kept() {
    let item = parse_bill_item("S 1 (\u{e9}) - T");
    assert_eq!(item.bill_type, Ok(BillType::S));
    assert_eq!(item.bill_number, Ok(1));
    assert_eq!(item.bill_version, "\u{e9}");
    assert_eq!(item.title, "T");
    let item = parse_bill_item("H.R. 1 (\u{e9}t\u{e9}) - T");
    assert_eq!(item.bill_version, "\u{e9}t\u{e9}");
}

#[test]
fn punctuation_ends_the_version_code() {
    let item = parse_bill_item("S 1 (I-H) - T");
    assert_eq!(item.bill_type, Err(FeedErrors::MatchError));
    assert_eq!(item.bill_number, Err(FeedErrors::ParseError));
    assert_eq!(item.title, "S 1 (I-H) - T");
}

#[test]
fn newline_in_title_gives_all_error_record() {
    let item = parse_bill_item("H.R. 1 (IH) - a\nb");
    assert_eq!(item.bill_number, Err(FeedErrors::ParseError));
    assert_eq!(item.title, "H.R. 1 (IH) - a\nb");
}

#[test]
fn first_version_marker_wins() {
    let item = parse_bill_item("H.R. 1 (IH) - X (RS) - Y");
    assert_eq!(item.bill_version, "IH");
    assert_eq!(item.title, "X (RS) - Y");
}

#[test]
fn leading_text_is_skipped() {
    let item = parse_bill_item("1. H.R. 5 (IH) - T");
    assert_eq!(item.bill_type, Ok(BillType::HR));
    assert_eq!(item.bill_number, Ok(5));
    assert_eq!(item.title, "T");
}

#[test]
fn unknown_version_code_is_kept() {
    let item = parse_bill_item("S 3 (ZZZ_9) - T");
    assert_eq!(item.bill_version, "ZZZ_9");
    assert_eq!(item.bill_type, Ok(BillType::S));
}

#[test]
fn version_and_error_texts() {
    assert_eq!(BillTextVersionAbbreviation::IH.to_string(), "Introduced in House");
    assert_eq!(BillTextVersionAbbreviation::STATPVT.to_string(), "Statutes at Large (Private Law)");
    assert_eq!(BillTextVersionAbbreviation::ENR.to_string(), "Enrolled Bill");
    assert_eq!(FeedErrors::ParseError.to_string(), "Error parsing Bill Number.");
    assert_eq!(FeedErrors::MatchError.to_string(), "Error matching Bill Type.");
}

#[test]
fn feed_titles_are_unescaped_and_parsed_in_order() {
    let titles = vec![
        Some("H.R. 7261 (IH) - Arts &amp; Education Act".to_string()),
        None,
        Some(String::new()),
        Some("S. 9 (IS) - Plain".to_string()),
    ];
    let items = bill_items_from_titles(&titles);
    assert_eq!(items.len(), 4);
    assert_eq!(items[0].bill_type, Ok(BillType::HR));
    assert_eq!(items[0].title, "Arts & Education Act");
    assert_eq!(items[1].bill_number, Err(FeedErrors::ParseError));
    assert_eq!(items[1].title, "No title found for Bill.");
    assert_eq!(items[2].bill_type, Err(FeedErrors::MatchError));
    assert_eq!(items[3].bill_number, Ok(9));
    assert_eq!(items[3].title, "Plain");
}

#[test]
fn missing_number_between_any_separators() {
    let lines = [
        "H.R.\u{a0} (IH) - T",
        "H.R.\u{a0}\u{a0}(IH) - T",
        "H.R.  (IH) - T",
        "H.R. \u{a0}(IH) - T",
        "H.R.\u{a0}(IH) - T",
    ];
    for line in lines {
        let item = parse_bill_item(line);
        assert_eq!(item.bill_type, Ok(BillType::HR), "{:?}", line);
        assert_eq!(item.bill_number, Err(FeedErrors::ParseError), "{:?}", line);
        assert_eq!(item.bill_version, "IH", "{:?}", line);
        assert_eq!(item.title, "T", "{:?}", line);
    }
}

#[test]
fn records_clone_field_for_field() {
    let item = parse_bill_item("S. 12 (RS) - A Title");
    let copy = item.clone();
    assert_same(&item, &copy);
    let items = BillItems { bills: vec![item, parse_bill_item("")] };
    let copies = items.clone();
    assert_eq!(copies.bills.len(), 2);
    assert_same(&items.bills[0], &copies.bills[0]);
    assert_same(&items.bills[1], &copies.bills[1]);
}
