use mindmap::files::extract_blocks;
use mindmap::files::is_markdown_file;

#[test]
fn two_paragraphs_give_two_blocks() {
    let blocks = extract_blocks("para one\n\npara two\n").unwrap();
    assert_eq!(blocks.len(), 2);
    assert_eq!(blocks[0].start_line_no, 1);
    assert_eq!(blocks[0].end_line_no, 1);
    assert_eq!(blocks[0].text, "para one");
    assert_eq!(blocks[1].start_line_no, 3);
    assert_eq!(blocks[1].end_line_no, 3);
    assert_eq!(blocks[1].text, "para two");
}

#[test]
fn empty_content_gives_zero_blocks() {
    assert_eq!(extract_blocks("").unwrap().len(), 0);
}

#[test]
fn multi_line_paragraph_spans_its_lines() {
    let blocks = extract_blocks("first line\nsecond line\n\nlater\n").unwrap();
    assert_eq!(blocks.len(), 2);
    assert_eq!((blocks[0].start_line_no, blocks[0].end_line_no), (1, 2));
    assert_eq!((blocks[1].start_line_no, blocks[1].end_line_no), (4, 4));
}

#[test]
fn heading_and_paragraph_are_separate_blocks() {
    let blocks = extract_blocks("# title\n\nbody text\n").unwrap();
    assert_eq!(blocks.len(), 2);
    assert_eq!(blocks[0].text, "title");
    assert_eq!(blocks[1].text, "body text");
}

#[test]
fn markdown_paths_have_the_md_extension() {
    assert!(is_markdown_file("notes/a.md"));
    assert!(is_markdown_file("a.md"));
    assert!(is_markdown_file("dir.d/note.x.md"));
    assert!(!is_markdown_file("notes/a.txt"));
    assert!(!is_markdown_file("a.MD"));
    assert!(!is_markdown_file(".md"));
    assert!(!is_markdown_file("dir/.md"));
    assert!(!is_markdown_file("md"));
    assert!(!is_markdown_file(""));
}
