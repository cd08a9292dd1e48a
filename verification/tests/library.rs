use remarkers::content::{CPages, CPagesPage, NotebookContent, NotebookContentRaw};
use remarkers::device::{frame_window, sync_action, sync_remarkable_to_dir, SyncAction, SyncEntry};
use remarkers::error::ParseError;
use remarkers::model::{BrushType, Color, PageFilter, Version};
use remarkers::text::{parse_decimal_u32, parse_hex_usize};

#[test]
fn brush_table_decodes_every_code() {
    let cases: [(u32, BrushType); 17] = [
        (0x06, BrushType::Eraser),
        (0x08, BrushType::EraserArea),
        (0x03, BrushType::Marker),
        (0x10, BrushType::Marker),
        (0x04, BrushType::Fineliner),
        (0x11, BrushType::Fineliner),
        (0x00, BrushType::Paintbrush),
        (0x0c, BrushType::Paintbrush),
        (0x07, BrushType::MechanicalPencil),
        (0x0d, BrushType::MechanicalPencil),
        (0x01, BrushType::Pencil),
        (0x0e, BrushType::Pencil),
        (0x02, BrushType::Ballpoint),
        (0x0f, BrushType::Ballpoint),
        (0x05, BrushType::Highlighter),
        (0x12, BrushType::Highlighter),
        (0x15, BrushType::Calligraphy),
    ];
    for (code, brush) in cases {
        assert_eq!(BrushType::from_code(code), Ok(brush));
    }
    assert_eq!(BrushType::from_code(0x13), Err(ParseError::UnknownEnum));
    assert_eq!(BrushType::from_code(0x42), Err(ParseError::UnknownEnum));
}

#[test]
fn color_table_decodes_every_ordinal() {
    let cases: [(u32, Color); 9] = [
        (0, Color::Black),
        (1, Color::Grey),
        (2, Color::White),
        (3, Color::Yellow),
        (4, Color::Green),
        (5, Color::Pink),
        (6, Color::Blue),
        (7, Color::Red),
        (8, Color::GreyOverlap),
    ];
    for (code, color) in cases {
        assert_eq!(Color::from_code(code), Ok(color));
    }
    assert_eq!(Color::from_code(9), Err(ParseError::UnknownEnum));
}

#[test]
fn version_digits() {
    assert_eq!(Version::from_digit(b'3'), Some(Version::V3));
    assert_eq!(Version::from_digit(b'5'), Some(Version::V5));
    assert_eq!(Version::from_digit(b'6'), Some(Version::V6));
    assert_eq!(Version::from_digit(b'4'), None);
}

#[test]
fn erasers_are_not_drawn() {
    assert!(!BrushType::Eraser.should_draw());
    assert!(!BrushType::EraserArea.should_draw());
    assert!(BrushType::Fineliner.should_draw());
    assert!(BrushType::Calligraphy.should_draw());
}

#[test]
fn page_filter_evaluation() {
    assert!(PageFilter::All.matches(0));
    assert!(PageFilter::All.matches(17));
    assert!(PageFilter::Single(3).matches(3));
    assert!(!PageFilter::Single(3).matches(4));
    assert!(!PageFilter::Range(2, 5).matches(1));
    assert!(PageFilter::Range(2, 5).matches(2));
    assert!(PageFilter::Range(2, 5).matches(4));
    assert!(!PageFilter::Range(2, 5).matches(5));
}

#[test]
fn content_flat_page_list_wins() {
    let raw = NotebookContentRaw {
        c_pages: Some(CPages {
            pages: Some(vec![CPagesPage { id: "ignored".to_string() }]),
        }),
        pages: Some(vec!["a".to_string(), "b".to_string()]),
    };
    let content = NotebookContent::from_raw(raw);
    assert_eq!(content.pages, Some(vec!["a".to_string(), "b".to_string()]));
}

#[test]
fn content_falls_back_to_c_pages() {
    let raw = NotebookContentRaw {
        c_pages: Some(CPages {
            pages: Some(vec![
                CPagesPage { id: "p1".to_string() },
                CPagesPage { id: "p2".to_string() },
            ]),
        }),
        pages: None,
    };
    let content = NotebookContent::from_raw(raw);
    assert_eq!(content.pages, Some(vec!["p1".to_string(), "p2".to_string()]));
}

#[test]
fn content_without_any_page_list() {
    let content = NotebookContent::from_raw(NotebookContentRaw { c_pages: None, pages: None });
    assert_eq!(content.pages, None);
    let content = NotebookContent::from_raw(NotebookContentRaw {
        c_pages: Some(CPages { pages: None }),
        pages: None,
    });
    assert_eq!(content.pages, None);
}

#[test]
fn sync_rule_per_file() {
    assert_eq!(sync_action(10, None), SyncAction::Create);
    assert_eq!(sync_action(10, Some(5)), SyncAction::Update);
    assert_eq!(sync_action(10, Some(10)), SyncAction::Skip);
    assert_eq!(sync_action(10, Some(15)), SyncAction::Skip);
}

#[test]
fn sync_plan_counts() {
    let entries = vec![
        SyncEntry { remote_mtime: 10, local_mtime: None },
        SyncEntry { remote_mtime: 10, local_mtime: Some(5) },
        SyncEntry { remote_mtime: 10, local_mtime: Some(10) },
        SyncEntry { remote_mtime: 3, local_mtime: None },
        SyncEntry { remote_mtime: 4, local_mtime: Some(9) },
    ];
    let plan = sync_remarkable_to_dir(&entries);
    assert_eq!(
        plan.actions,
        vec![
            SyncAction::Create,
            SyncAction::Update,
            SyncAction::Skip,
            SyncAction::Create,
            SyncAction::Skip,
        ]
    );
    assert_eq!(plan.created, 2);
    assert_eq!(plan.updated, 1);
    assert_eq!(plan.skipped, 2);
}

#[test]
fn decimal_parsing() {
    assert_eq!(parse_decimal_u32(b"0"), Some(0));
    assert_eq!(parse_decimal_u32(b"747"), Some(747));
    assert_eq!(parse_decimal_u32(b"4294967295"), Some(u32::MAX));
    assert_eq!(parse_decimal_u32(b"4294967296"), None);
    assert_eq!(parse_decimal_u32(b""), None);
    assert_eq!(parse_decimal_u32(b"12a"), None);
    assert_eq!(parse_decimal_u32(b" 12"), None);
}

#[test]
fn hex_parsing() {
    assert_eq!(parse_hex_usize(b"0"), Some(0));
    assert_eq!(parse_hex_usize(b"ff"), Some(255));
    assert_eq!(parse_hex_usize(b"7f5a2c00"), Some(0x7f5a2c00));
    assert_eq!(parse_hex_usize(b"DEAD"), Some(0xdead));
    assert_eq!(parse_hex_usize(b""), None);
    assert_eq!(parse_hex_usize(b"12g"), None);
    assert_eq!(parse_hex_usize(b"ffffffffffffffffff"), None);
}

#[test]
fn frame_window_blocks() {
    // One frame is 1872 * 1404 * 2 = 5256576 bytes in 4096-byte blocks.
    assert_eq!(frame_window(0), (0, 1284));
    assert_eq!(frame_window(4096), (1, 1284));
    assert_eq!(frame_window(100), (0, 1284));
    assert_eq!(frame_window(8192 + 4000), (2, 1283));
}
