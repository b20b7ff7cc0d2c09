use kb::demo::demo_lines;

#[test]
fn demo_emits_five_alternating_lines() {
    let lines = demo_lines();
    let expected = vec![
        "0 \"even\"".to_string(),
        "1 \"odd\"".to_string(),
        "2 \"even\"".to_string(),
        "3 \"odd\"".to_string(),
        "4 \"even\"".to_string(),
    ];
    assert_eq!(lines, expected);
}

#[test]
fn demo_lines_match_host_debug_format() {
    let lines = demo_lines();
    for (i, line) in lines.iter().enumerate() {
        let label = if i % 2 == 0 { "even" } else { "odd" };
        assert_eq!(*line, format!("{:?} {:?}", i, label));
    }
}
