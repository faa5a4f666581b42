use mindmap::formatter::get_context;
use mindmap::formatter::OutputFormat;
use mindmap::formatter::SearchResultWithContext;

fn result(path: &str, start: usize, end: usize, context: &str) -> SearchResultWithContext {
    SearchResultWithContext {
        path: path.to_string(),
        start_line_no: start,
        end_line_no: end,
        distance: 0.25f32.to_bits(),
        distance_display: "0.25".to_string(),
        context: context.to_string(),
    }
}

#[test]
fn raw_format_is_one_line_per_hit() {
    let results = vec![result("notes/a.md", 1, 1, "para one"), result("notes/a.md", 3, 3, "para two")];
    let rendered = mindmap::formatter::format(&results, OutputFormat::Raw).unwrap();
    assert_eq!(rendered, "notes/a.md:1:1\nnotes/a.md:3:3\n");
}

#[test]
fn raw_format_of_no_results_is_empty() {
    assert_eq!(mindmap::formatter::format(&vec![], OutputFormat::Raw).unwrap(), "");
}

#[test]
fn list_format_blocks_are_titled_and_separated() {
    let results = vec![result("a.md", 1, 2, "first\nsecond"), result("b.md", 5, 5, "fifth")];
    let rendered = mindmap::formatter::format(&results, OutputFormat::List).unwrap();
    assert_eq!(rendered, "a.md:1:2 - 0.25\nfirst\nsecond\n\nb.md:5:5 - 0.25\nfifth");
}

#[test]
fn json_format_is_left_to_the_caller() {
    assert!(mindmap::formatter::format(&vec![result("a.md", 1, 1, "x")], OutputFormat::Json).is_none());
}

#[test]
fn output_format_names() {
    assert_eq!(OutputFormat::from_str("list").unwrap(), OutputFormat::List);
    assert_eq!(OutputFormat::from_str("raw").unwrap(), OutputFormat::Raw);
    assert_eq!(OutputFormat::from_str("json").unwrap(), OutputFormat::Json);
    assert_eq!(OutputFormat::from_str("yaml").unwrap_err(), "Invalid output format");
}

#[test]
fn context_takes_the_inclusive_line_range() {
    let lines: Vec<String> =
        vec!["one".to_string(), "two".to_string(), "three".to_string()];
    assert_eq!(get_context(&lines, 1, 1), "one");
    assert_eq!(get_context(&lines, 1, 3), "one\ntwo\nthree");
    assert_eq!(get_context(&lines, 2, 3), "two\nthree");
}

#[test]
fn context_clamps_to_the_file() {
    let lines: Vec<String> = vec!["one".to_string(), "two".to_string()];
    assert_eq!(get_context(&lines, 1, 10), "one\ntwo");
    assert_eq!(get_context(&lines, 0, 1), "one");
    assert_eq!(get_context(&lines, 3, 2), "");
    let empty: Vec<String> = vec![];
    assert_eq!(get_context(&empty, 1, 1), "");
}
