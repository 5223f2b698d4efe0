use nvim_bridge::character::Character;
use nvim_bridge::errors::BridgeErrors;
use nvim_bridge::grid_line::GridLine;
use nvim_bridge::notify::grid_line_events;
use nvim_bridge::session::{open_file_command, update, BridgeRequest, BridgeState, ResolutionRequest, UiEvent};
use nvim_bridge::value::{Integer, Utf8String, Value};

fn integer(n: i64) -> Value {
    Value::Integer(Integer::from_i64(n))
}

fn text(s: &str) -> Value {
    Value::String(Utf8String::Valid(s.to_string()))
}

#[test]
fn char_check_empty() {
    assert_eq!(
        Character::try_from(&Value::Array(vec![text(""), integer(0), integer(0)])).unwrap(),
        Character::new("".into(), 0, 0)
    )
}

#[test]
fn char_check_no_repeat() {
    assert_eq!(
        Character::try_from(&Value::Array(vec![text("T"), integer(0)])).unwrap(),
        Character::new("T".into(), 0, 1)
    )
}

#[test]
fn char_check_no_information() {
    assert_eq!(
        Character::try_from(&Value::Array(vec![text("T")])),
        Result::Err(BridgeErrors::ConversionError)
    )
}

#[test]
fn grid_line_empty() {
    assert_eq!(
        GridLine::try_from(&Value::Array(vec![integer(0), integer(0), integer(0), Value::Array(vec![])])).unwrap(),
        GridLine { grid: 0, col_start: 0, row: 0, content: vec![] }
    );
}

#[test]
fn grid_line_col_row_val_check() {
    assert_eq!(
        GridLine::try_from(&Value::Array(vec![integer(1), integer(2), integer(3), Value::Array(vec![])])).unwrap(),
        GridLine { grid: 1, row: 2, col_start: 3, content: vec![] }
    );
}

#[test]
fn grid_line_character_check() {
    assert_eq!(
        GridLine::try_from(&Value::Array(vec![
            integer(0),
            integer(0),
            integer(0),
            Value::Array(vec![
                Value::Array(vec![text("T"), integer(1), integer(3)]),
                Value::Array(vec![text("E"), integer(2), integer(2)]),
                Value::Array(vec![text("S")]),
            ])
        ]))
        .unwrap(),
        GridLine {
            grid: 0,
            row: 0,
            col_start: 0,
            content: vec![
                Character::new("T".into(), 1, 3),
                Character::new("E".into(), 2, 2),
                Character::new("S".into(), 2, 1),
            ]
        }
    );
}

#[test]
fn char_given_highlight_used_when_absent() {
    let v = Value::Array(vec![text("x")]);
    assert_eq!(Character::from_val_highlight(&v, 9).unwrap(), Character::new("x".into(), 9, 1));
    assert_eq!(Character::from_val_highlight(&v, 9).unwrap().highlight(), 9);
}

#[test]
fn char_own_highlight_wins() {
    let v = Value::Array(vec![text("x"), integer(4), integer(2)]);
    let a = Character::from_val_highlight(&v, 1).unwrap();
    let b = Character::from_val_highlight(&v, 2).unwrap();
    assert_eq!(a, b);
    assert_eq!(Character::try_from(&v).unwrap(), a);
    assert_eq!(a, Character::new("x".into(), 4, 2));
}

#[test]
fn char_non_integer_fields_fall_back() {
    let v = Value::Array(vec![text("y"), Value::Nil, Value::Boolean(true)]);
    assert_eq!(Character::from_val_highlight(&v, 6).unwrap(), Character::new("y".into(), 6, 1));
    assert_eq!(Character::try_from(&v), Err(BridgeErrors::ConversionError));
}

#[test]
fn char_errors() {
    assert_eq!(Character::from_val_highlight(&Value::Nil, 0), Err(BridgeErrors::ConversionError));
    assert_eq!(Character::from_val_highlight(&Value::Array(vec![]), 0), Err(BridgeErrors::ConversionError));
    assert_eq!(Character::from_val_highlight(&Value::Array(vec![integer(1)]), 0), Err(BridgeErrors::ConversionError));
    let invalid = Value::Array(vec![Value::String(Utf8String::Invalid(vec![0xff, 0xfe])), integer(1)]);
    assert_eq!(Character::try_from(&invalid), Err(BridgeErrors::ConversionError));
    assert_eq!(Character::try_from(&text("T")), Err(BridgeErrors::ConversionError));
}

#[test]
fn char_highlight_out_of_i64_range() {
    let big = Value::Integer(Integer::from_u64(u64::MAX));
    let v = Value::Array(vec![text("z"), big]);
    assert_eq!(Character::try_from(&v), Err(BridgeErrors::ConversionError));
    assert_eq!(Character::from_val_highlight(&v, 3).unwrap(), Character::new("z".into(), 3, 1));
}

#[test]
fn integer_as_i64() {
    assert_eq!(Integer::from_i64(42).as_i64(), Some(42));
    assert_eq!(Integer::from_i64(-42).as_i64(), Some(-42));
    assert_eq!(Integer::from_i64(i64::MIN).as_i64(), Some(i64::MIN));
    assert_eq!(Integer::from_u64(i64::MAX as u64).as_i64(), Some(i64::MAX));
    assert_eq!(Integer::from_u64(i64::MAX as u64 + 1).as_i64(), None);
    assert_eq!(integer(42).as_i64(), Some(42));
    assert_eq!(Value::F64(0).as_i64(), None);
}

#[test]
fn value_accessors() {
    assert!(text("le message").is_str());
    assert_eq!(text("le message").as_str(), Some("le message"));
    assert!(!Value::Nil.is_str());
    assert!(!Value::String(Utf8String::Invalid(vec![0xc3])).is_str());
    assert!(Value::Array(vec![]).is_array());
    assert!(!Value::Binary(vec![1]).is_array());
    assert_eq!(Value::Array(vec![Value::Nil]).as_array().map(|a| a.len()), Some(1));
    assert!(Value::Nil.as_array().is_none());
}

#[test]
fn grid_line_inherits_highlight_along_the_line() {
    let g = GridLine::try_from(&Value::Array(vec![
        integer(1),
        integer(2),
        integer(3),
        Value::Array(vec![
            Value::Array(vec![text("a"), integer(7)]),
            Value::Array(vec![text("b")]),
            Value::Array(vec![text("c"), integer(8), integer(4)]),
            Value::Array(vec![text("d")]),
        ]),
        Value::Nil,
    ]))
    .unwrap();
    assert_eq!(
        g,
        GridLine {
            grid: 1,
            row: 2,
            col_start: 3,
            content: vec![
                Character::new("a".into(), 7, 1),
                Character::new("b".into(), 7, 1),
                Character::new("c".into(), 8, 4),
                Character::new("d".into(), 8, 1),
            ]
        }
    );
    assert_eq!(g.content.len(), 4);
}

#[test]
fn grid_line_errors() {
    let e = Err(BridgeErrors::ConversionError);
    assert_eq!(GridLine::try_from(&Value::Nil), e);
    assert_eq!(GridLine::try_from(&Value::Array(vec![integer(0), integer(0), integer(0)])), e);
    assert_eq!(GridLine::try_from(&Value::Array(vec![integer(0), text("0"), integer(0), Value::Array(vec![])])), e);
    assert_eq!(GridLine::try_from(&Value::Array(vec![integer(0), integer(0), integer(0), integer(0)])), e);
    // The first character must carry a highlight id.
    assert_eq!(
        GridLine::try_from(&Value::Array(vec![
            integer(0),
            integer(0),
            integer(0),
            Value::Array(vec![Value::Array(vec![text("a")])])
        ])),
        e
    );
    // A later character that cannot be read spoils the line.
    assert_eq!(
        GridLine::try_from(&Value::Array(vec![
            integer(0),
            integer(0),
            integer(0),
            Value::Array(vec![Value::Array(vec![text("a"), integer(1)]), Value::Array(vec![integer(5)])])
        ])),
        e
    );
}

fn grid_line_value(grid: i64) -> Value {
    Value::Array(vec![integer(grid), integer(0), integer(0), Value::Array(vec![Value::Array(vec![text("q"), integer(1)])])])
}

#[test]
fn notify_reads_grid_line_events() {
    let args = vec![
        Value::Array(vec![text("grid_line"), grid_line_value(1)]),
        Value::Array(vec![text("flush")]),
        Value::Array(vec![text("grid_line"), grid_line_value(2)]),
        Value::Array(vec![text("grid_line")]),
        Value::Array(vec![text("grid_line"), Value::Nil]),
    ];
    let events = grid_line_events(&args);
    assert_eq!(events.len(), 4);
    assert_eq!(events[0].as_ref().unwrap().grid, 1);
    assert_eq!(events[1].as_ref().unwrap().grid, 2);
    assert_eq!(events[1].as_ref().unwrap().content, vec![Character::new("q".into(), 1, 1)]);
    assert_eq!(events[2], Err(BridgeErrors::ConversionError));
    assert_eq!(events[3], Err(BridgeErrors::ConversionError));
}

#[test]
fn notify_stops_at_non_array_or_empty() {
    let args = vec![
        Value::Array(vec![text("grid_line"), grid_line_value(1)]),
        Value::Nil,
        Value::Array(vec![text("grid_line"), grid_line_value(2)]),
    ];
    assert_eq!(grid_line_events(&args).len(), 1);
    let args = vec![Value::Array(vec![]), Value::Array(vec![text("grid_line"), grid_line_value(2)])];
    assert_eq!(grid_line_events(&args).len(), 0);
    let args = vec![Value::Array(vec![integer(3), grid_line_value(2)])];
    assert_eq!(grid_line_events(&args).len(), 0);
    assert_eq!(grid_line_events(&vec![]).len(), 0);
}

#[test]
fn resolution_attaches_once() {
    let mut b = BridgeState::new();
    assert_eq!(b.change_resolution(800, 600), ResolutionRequest::Attach { columns: 50, rows: 37 });
    assert_eq!(b.change_resolution(800, 600), ResolutionRequest::Resize { width: 800, height: 600 });
    assert_eq!(b.change_resolution(17, 15), ResolutionRequest::Resize { width: 17, height: 15 });
}

#[test]
fn update_requests() {
    let mut b = BridgeState::new();
    let r = update(&mut b, UiEvent::Resized { width: 320, height: 160 });
    assert_eq!(
        r,
        vec![
            BridgeRequest::Resolution(ResolutionRequest::Attach { columns: 20, rows: 10 }),
            BridgeRequest::Command("e ~/test".to_string()),
        ]
    );
    let r = update(&mut b, UiEvent::Resized { width: 32, height: 16 });
    assert_eq!(r[0], BridgeRequest::Resolution(ResolutionRequest::Resize { width: 32, height: 16 }));
    assert_eq!(update(&mut b, UiEvent::CharacterReceived('i')), vec![BridgeRequest::Input('i')]);
    assert_eq!(update(&mut b, UiEvent::BufUpdate), vec![]);
    assert_eq!(update(&mut b, UiEvent::Other), vec![]);
}

#[test]
fn open_file_command_text() {
    assert_eq!(open_file_command("/tmp/a.txt"), "e /tmp/a.txt");
    assert_eq!(open_file_command(""), "e ");
}

#[test]
fn error_message() {
    assert_eq!(BridgeErrors::ConversionError.to_string(), "Got conversion error");
}
