use browser_table::row::{
    color_code, decode_cells, encode_row, Cell, Color, FontSpec, Row,
};

fn sample_row() -> Row {
    Row {
        cells: vec![
            Cell { text: "front".to_string(), is_rtl: false },
            Cell { text: "עורף".to_string(), is_rtl: true },
            Cell { text: "3".to_string(), is_rtl: false },
        ],
        color: Color::FlagOrange,
        font: FontSpec { name: "Arial".to_string(), size: 12 },
    }
}

#[test]
fn encode_preserves_cells_in_order() {
    let wire = encode_row(sample_row());
    assert_eq!(wire.cells.len(), 3);
    assert_eq!(wire.cells[0].text, "front");
    assert!(!wire.cells[0].is_rtl);
    assert_eq!(wire.cells[1].text, "עורף");
    assert!(wire.cells[1].is_rtl);
    assert_eq!(wire.cells[2].text, "3");
    assert!(!wire.cells[2].is_rtl);
}

#[test]
fn encode_carries_color_and_font() {
    let wire = encode_row(sample_row());
    assert_eq!(wire.color, 4);
    assert_eq!(wire.font_name, "Arial");
    assert_eq!(wire.font_size, 12);
}

#[test]
fn encode_of_empty_row_is_empty() {
    let row = Row {
        cells: Vec::new(),
        color: Color::Default,
        font: FontSpec { name: "Courier".to_string(), size: 10 },
    };
    let wire = encode_row(row);
    assert_eq!(wire.cells.len(), 0);
    assert_eq!(wire.color, 0);
}

#[test]
fn cells_round_trip_through_the_wire_row() {
    let original = sample_row();
    let texts: Vec<String> = original.cells.iter().map(|c| c.text.clone()).collect();
    let rtls: Vec<bool> = original.cells.iter().map(|c| c.is_rtl).collect();
    let back = decode_cells(encode_row(original));
    assert_eq!(back.len(), texts.len());
    for (i, cell) in back.iter().enumerate() {
        assert_eq!(cell.text, texts[i]);
        assert_eq!(cell.is_rtl, rtls[i]);
    }
}

#[test]
fn color_codes_follow_declaration_order() {
    assert_eq!(color_code(Color::Default), 0);
    assert_eq!(color_code(Color::Marked), 1);
    assert_eq!(color_code(Color::Suspended), 2);
    assert_eq!(color_code(Color::FlagRed), 3);
    assert_eq!(color_code(Color::FlagOrange), 4);
    assert_eq!(color_code(Color::FlagGreen), 5);
    assert_eq!(color_code(Color::FlagBlue), 6);
}
