use blackjack_trainer::loader::{load_strategy_table, table_from_records, LoadError};

#[test]
fn loads_cells_by_column_and_row() {
    let table = load_strategy_table("H,S\nD,P\nR,X\n").unwrap();
    assert_eq!(table.get(0, 0), Some('H'));
    assert_eq!(table.get(1, 0), Some('S'));
    assert_eq!(table.get(0, 1), Some('D'));
    assert_eq!(table.get(1, 1), Some('P'));
    assert_eq!(table.get(0, 2), Some('R'));
    assert_eq!(table.get(1, 2), Some('X'));
    assert_eq!(table.get(2, 0), None);
    assert_eq!(table.get(0, 3), None);
}

#[test]
fn empty_text_gives_empty_table() {
    let table = load_strategy_table("").unwrap();
    assert_eq!(table.get(0, 0), None);
}

#[test]
fn first_row_is_data_not_header() {
    let table = load_strategy_table("H\nS\n").unwrap();
    assert_eq!(table.get(0, 0), Some('H'));
    assert_eq!(table.get(0, 1), Some('S'));
}

fn fault_of(text: &str) -> Option<LoadError> {
    load_strategy_table(text).err()
}

#[test]
fn unknown_code_is_reported_with_its_place() {
    assert_eq!(fault_of("H,S\nD,Q\n"), Some(LoadError::InvalidCode { row: 1, column: 1 }));
    assert_eq!(fault_of("h\n"), Some(LoadError::InvalidCode { row: 0, column: 0 }));
    assert_eq!(fault_of("H,SS\n"), Some(LoadError::InvalidCode { row: 0, column: 1 }));
    assert_eq!(fault_of("H, S\n"), Some(LoadError::InvalidCode { row: 0, column: 1 }));
    assert_eq!(fault_of("H,,S\n"), Some(LoadError::InvalidCode { row: 0, column: 1 }));
}

#[test]
fn ragged_row_is_malformed() {
    assert_eq!(fault_of("H,S\nD\n"), Some(LoadError::MalformedRow { row: 1 }));
}

#[test]
fn earlier_fault_wins() {
    assert_eq!(fault_of("H,Q\nD\n"), Some(LoadError::InvalidCode { row: 0, column: 1 }));
    assert_eq!(fault_of("H,S\nD\nQ,Q\n"), Some(LoadError::MalformedRow { row: 1 }));
}

#[test]
fn records_build_the_same_table() {
    let rows = vec![
        Some(vec![String::from("H"), String::from("S")]),
        Some(vec![String::from("D")]),
    ];
    let table = table_from_records(&rows).unwrap();
    assert_eq!(table.get(0, 0), Some('H'));
    assert_eq!(table.get(1, 0), Some('S'));
    assert_eq!(table.get(0, 1), Some('D'));
    assert_eq!(table.get(1, 1), None);
}

#[test]
fn unread_record_is_malformed() {
    let rows = vec![Some(vec![String::from("H")]), None, Some(vec![String::from("?")])];
    assert_eq!(table_from_records(&rows).err(), Some(LoadError::MalformedRow { row: 1 }));
}

fn one_field_rows(count: usize) -> Vec<Option<Vec<String>>> {
    let mut rows = Vec::new();
    for i in 0..count {
        let code = if i == 0 { "H" } else if i + 1 == count { "S" } else { "D" };
        rows.push(Some(vec![String::from(code)]));
    }
    rows
}

fn wide_row(count: usize) -> Vec<String> {
    let mut fields = Vec::new();
    for j in 0..count {
        let code = if j == 0 { "H" } else if j + 1 == count { "S" } else { "D" };
        fields.push(String::from(code));
    }
    fields
}

#[test]
fn row_256_is_out_of_range() {
    let fault = table_from_records(&one_field_rows(257)).err();
    assert_eq!(fault, Some(LoadError::OutOfRange { row: 256, column: 0 }));
    let fault = table_from_records(&one_field_rows(300)).err();
    assert_eq!(fault, Some(LoadError::OutOfRange { row: 256, column: 0 }));
}

#[test]
fn column_256_is_out_of_range() {
    let fault = table_from_records(&vec![Some(wide_row(257))]).err();
    assert_eq!(fault, Some(LoadError::OutOfRange { row: 0, column: 256 }));
    let rows = vec![Some(wide_row(256)), Some(wide_row(256)), Some(wide_row(400))];
    let fault = table_from_records(&rows).err();
    assert_eq!(fault, Some(LoadError::OutOfRange { row: 2, column: 256 }));
}

#[test]
fn text_with_257_rows_is_rejected() {
    let mut text = String::from("H\n");
    for _ in 0..255 {
        text.push_str("D\n");
    }
    assert_eq!(load_strategy_table(&text).unwrap().get(0, 0), Some('H'));
    text.push_str("S\n");
    assert_eq!(fault_of(&text), Some(LoadError::OutOfRange { row: 256, column: 0 }));
}

#[test]
fn text_with_257_columns_is_rejected() {
    let mut text = String::from("H");
    for _ in 0..255 {
        text.push_str(",D");
    }
    let table = load_strategy_table(&format!("{}\n", text)).unwrap();
    assert_eq!(table.get(0, 0), Some('H'));
    assert_eq!(table.get(255, 0), Some('D'));
    text.push_str(",S\n");
    assert_eq!(fault_of(&text), Some(LoadError::OutOfRange { row: 0, column: 256 }));
}

#[test]
fn the_largest_table_keeps_every_cell() {
    let codes = ["X", "H", "S", "D", "P", "R"];
    let mut rows = Vec::new();
    for i in 0..256usize {
        let mut fields = Vec::new();
        for j in 0..256usize {
            fields.push(String::from(codes[(i * 7 + j) % 6]));
        }
        rows.push(Some(fields));
    }
    let table = table_from_records(&rows).unwrap();
    for i in 0..256usize {
        for j in 0..256usize {
            let code = codes[(i * 7 + j) % 6].chars().next();
            assert_eq!(table.get(j as u8, i as u8), code);
        }
    }
}

#[test]
fn first_and_last_of_256_rows_keep_their_codes() {
    let table = table_from_records(&one_field_rows(256)).unwrap();
    assert_eq!(table.get(0, 0), Some('H'));
    assert_eq!(table.get(0, 1), Some('D'));
    assert_eq!(table.get(0, 255), Some('S'));
    assert_eq!(table.get(1, 0), None);
}

#[test]
fn an_earlier_unknown_code_comes_before_the_range() {
    let mut fields = wide_row(257);
    fields[3] = String::from("?");
    let fault = table_from_records(&vec![Some(fields)]).err();
    assert_eq!(fault, Some(LoadError::InvalidCode { row: 0, column: 3 }));
}

#[test]
fn a_field_without_a_key_is_out_of_range_whatever_it_spells() {
    let mut fields = wide_row(257);
    fields[256] = String::from("?");
    let fault = table_from_records(&vec![Some(fields)]).err();
    assert_eq!(fault, Some(LoadError::OutOfRange { row: 0, column: 256 }));
}

#[test]
fn an_unread_row_after_256_rows_is_malformed() {
    let mut rows = one_field_rows(256);
    rows.push(None);
    assert_eq!(table_from_records(&rows).err(), Some(LoadError::MalformedRow { row: 256 }));
}

#[test]
fn a_row_without_fields_needs_no_key() {
    let mut rows = one_field_rows(256);
    rows.push(Some(Vec::new()));
    let table = table_from_records(&rows).unwrap();
    assert_eq!(table.get(0, 255), Some('S'));
}

#[test]
fn one_more_row_adds_its_cells_only() {
    let shorter = load_strategy_table("H,S\nD,P\n").unwrap();
    let longer = load_strategy_table("H,S\nD,P\nR,X\n").unwrap();
    for dealer in 0..=255u8 {
        for value in 0..=255u8 {
            let was = shorter.get(dealer, value);
            let is = longer.get(dealer, value);
            if value == 2 && dealer < 2 {
                assert_eq!(was, None);
                assert_eq!(is, Some(if dealer == 0 { 'R' } else { 'X' }));
            } else {
                assert_eq!(is, was);
            }
        }
    }
}
