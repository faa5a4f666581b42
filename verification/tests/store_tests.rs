use mindmap::database::delete_all;
use mindmap::database::delete_file;
use mindmap::database::get_all;
use mindmap::database::insert_many;
use mindmap::database::start;
use mindmap::database::EmbeddedSentence;
use mindmap::database::StoreError;
use mindmap::files::process_and_store_file;
use mindmap::files::recompute_file;
use mindmap::files::Block;

fn row(path: &str, start: usize, end: usize, floats: &[f32]) -> EmbeddedSentence {
    EmbeddedSentence {
        path: path.to_string(),
        start_line_no: start,
        end_line_no: end,
        embedding: floats.iter().map(|f| f.to_bits()).collect(),
    }
}

fn rows_for(path: &str, all: &[EmbeddedSentence]) -> Vec<(usize, usize, Vec<u32>)> {
    let mut out: Vec<(usize, usize, Vec<u32>)> = all
        .iter()
        .filter(|r| r.path == path)
        .map(|r| (r.start_line_no, r.end_line_no, r.embedding.clone()))
        .collect();
    out.sort();
    out
}

#[test]
fn single_line_block_round_trips() {
    let mut store = start(":memory:").unwrap();
    let r = row("notes/a.md", 1, 1, &[0.5, 1.0, -2.0]);
    insert_many(&mut store, &vec![r]).unwrap();
    let all = get_all(&store).unwrap();
    assert_eq!(all.len(), 1);
    assert_eq!(all[0].path, "notes/a.md");
    assert_eq!(all[0].start_line_no, 1);
    assert_eq!(all[0].end_line_no, 1);
    let floats: Vec<f32> = all[0].embedding.iter().map(|b| f32::from_bits(*b)).collect();
    assert_eq!(floats, vec![0.5f32, 1.0, -2.0]);
}

#[test]
fn delete_by_path_leaves_no_rows_for_it() {
    let mut store = start(":memory:").unwrap();
    insert_many(
        &mut store,
        &vec![
            row("notes/a.md", 1, 1, &[1.0]),
            row("notes/a.md", 3, 3, &[2.0]),
            row("notes/b.md", 1, 2, &[3.0]),
        ],
    )
    .unwrap();
    delete_file(&mut store, "notes/a.md").unwrap();
    let all = get_all(&store).unwrap();
    assert!(all.iter().all(|r| r.path != "notes/a.md"));
    assert_eq!(all.len(), 1);
    assert_eq!(all[0].path, "notes/b.md");
}

#[test]
fn delete_all_empties_the_store() {
    let mut store = start(":memory:").unwrap();
    insert_many(&mut store, &vec![row("x.md", 1, 1, &[1.0]), row("y.md", 2, 2, &[2.0])]).unwrap();
    delete_all(&mut store).unwrap();
    assert_eq!(get_all(&store).unwrap().len(), 0);
}

#[test]
fn reindex_replaces_stale_rows_exactly() {
    let mut store = start(":memory:").unwrap();
    insert_many(
        &mut store,
        &vec![
            row("notes/a.md", 9, 9, &[9.0]),
            row("notes/keep.md", 1, 1, &[7.0]),
        ],
    )
    .unwrap();
    let fresh = vec![row("notes/a.md", 1, 1, &[1.0]), row("notes/a.md", 3, 3, &[2.0])];
    process_and_store_file(&mut store, "notes/a.md", &fresh).unwrap();
    let all = get_all(&store).unwrap();
    assert_eq!(
        rows_for("notes/a.md", &all),
        vec![(1, 1, vec![1.0f32.to_bits()]), (3, 3, vec![2.0f32.to_bits()])]
    );
    assert_eq!(rows_for("notes/keep.md", &all), vec![(1, 1, vec![7.0f32.to_bits()])]);
    assert_eq!(all.len(), 3);
}

#[test]
fn reindex_is_idempotent() {
    let mut store = start(":memory:").unwrap();
    let fresh = vec![row("notes/a.md", 1, 2, &[1.0, 0.0]), row("notes/a.md", 4, 6, &[0.0, 1.0])];
    process_and_store_file(&mut store, "notes/a.md", &fresh).unwrap();
    let first = rows_for("notes/a.md", &get_all(&store).unwrap());
    process_and_store_file(&mut store, "notes/a.md", &fresh).unwrap();
    let second = rows_for("notes/a.md", &get_all(&store).unwrap());
    assert_eq!(first, second);
    assert_eq!(get_all(&store).unwrap().len(), 2);
}

#[test]
fn empty_file_leaves_zero_rows() {
    let mut store = start(":memory:").unwrap();
    insert_many(&mut store, &vec![row("notes/a.md", 1, 1, &[1.0])]).unwrap();
    let blocks: Vec<Block> = vec![];
    let embeddings: Vec<Vec<u32>> = vec![];
    recompute_file(&mut store, "notes/a.md", &blocks, &embeddings).unwrap();
    let all = get_all(&store).unwrap();
    assert!(all.iter().all(|r| r.path != "notes/a.md"));
    assert_eq!(all.len(), 0);
}

#[test]
fn recompute_file_derives_rows_from_blocks() {
    let mut store = start(":memory:").unwrap();
    let blocks = vec![
        Block { start_line_no: 1, end_line_no: 1, text: "one".to_string() },
        Block { start_line_no: 3, end_line_no: 5, text: "two".to_string() },
    ];
    let embeddings: Vec<Vec<u32>> = vec![
        vec![1.0f32.to_bits(), 0.0f32.to_bits()],
        vec![0.0f32.to_bits(), 1.0f32.to_bits()],
    ];
    recompute_file(&mut store, "notes/a.md", &blocks, &embeddings).unwrap();
    let all = get_all(&store).unwrap();
    assert_eq!(
        rows_for("notes/a.md", &all),
        vec![
            (1, 1, vec![1.0f32.to_bits(), 0.0f32.to_bits()]),
            (3, 5, vec![0.0f32.to_bits(), 1.0f32.to_bits()]),
        ]
    );
}

#[test]
fn batched_insert_covers_more_than_one_chunk() {
    let mut store = start(":memory:").unwrap();
    let fresh: Vec<EmbeddedSentence> =
        (0..25).map(|i| row("big.md", i + 1, i + 1, &[i as f32])).collect();
    process_and_store_file(&mut store, "big.md", &fresh).unwrap();
    let all = get_all(&store).unwrap();
    assert_eq!(all.len(), 25);
    let got = rows_for("big.md", &all);
    for (i, item) in got.iter().enumerate() {
        assert_eq!(*item, (i + 1, i + 1, vec![(i as f32).to_bits()]));
    }
}

#[test]
fn unopenable_database_is_a_store_error() {
    match start("/nonexistent_dir_for_store/a.db") {
        Err(StoreError::Sql(m)) => assert!(!m.is_empty()),
        _ => panic!("expected a database error"),
    }
}

#[test]
fn malformed_blob_is_rejected_on_read() {
    let uri = "file:malformed_blob_case?mode=memory&cache=shared";
    let store = start(uri).unwrap();
    let raw = rusqlite::Connection::open(uri).unwrap();
    raw.execute(
        "INSERT INTO sentences (path, start_line_no, end_line_no, embedding) VALUES (?1, ?2, ?3, ?4)",
        ("bad.md", 1usize, 1usize, vec![1u8, 2, 3]),
    )
    .unwrap();
    match get_all(&store) {
        Err(StoreError::MalformedBlob) => {}
        other => panic!("expected a malformed blob error, got {:?}", other.is_ok()),
    }
}
