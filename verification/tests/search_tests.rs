use mindmap::database::EmbeddedSentence;
use mindmap::search::EmbeddingTree;
use mindmap::search::SearchResult;

fn row(path: &str, start: usize, floats: &[f32]) -> EmbeddedSentence {
    EmbeddedSentence {
        path: path.to_string(),
        start_line_no: start,
        end_line_no: start,
        embedding: floats.iter().map(|f| f.to_bits()).collect(),
    }
}

fn distances(query: &[f32], tree: &EmbeddingTree) -> Vec<u32> {
    tree.rows
        .iter()
        .map(|r| {
            let stored: Vec<f32> = r.embedding.iter().map(|b| f32::from_bits(*b)).collect();
            let q: Vec<f32> = query.to_vec();
            acap::cos::cosine_distance(&q, &stored).to_bits()
        })
        .collect()
}

fn paths(results: &[SearchResult]) -> Vec<String> {
    results.iter().map(|r| r.path.clone()).collect()
}

#[test]
fn nearest_results_sorted_by_cosine_distance() {
    let tree = EmbeddingTree::new(vec![
        row("far.md", 1, &[-1.0, 0.0]),
        row("near.md", 2, &[1.0, 0.0]),
        row("mid.md", 3, &[0.0, 1.0]),
    ]);
    let dists = distances(&[1.0, 0.0], &tree);
    let results = tree.search(&dists, 3);
    assert_eq!(paths(&results), vec!["near.md", "mid.md", "far.md"]);
    assert_eq!(f32::from_bits(results[0].distance), 0.0);
    assert_eq!(f32::from_bits(results[1].distance), 1.0);
    assert_eq!(f32::from_bits(results[2].distance), 2.0);
    assert_eq!(results[0].start_line_no, 2);
    assert_eq!(results[0].end_line_no, 2);
}

#[test]
fn k_limits_the_result_count() {
    let tree = EmbeddingTree::new(vec![
        row("a.md", 1, &[1.0, 0.0]),
        row("b.md", 2, &[0.0, 1.0]),
        row("c.md", 3, &[-1.0, 0.0]),
    ]);
    let dists = distances(&[1.0, 0.0], &tree);
    assert_eq!(tree.search(&dists, 0).len(), 0);
    assert_eq!(tree.search(&dists, 2).len(), 2);
    assert_eq!(paths(&tree.search(&dists, 2)), vec!["a.md", "b.md"]);
    assert_eq!(tree.search(&dists, 10).len(), 3);
}

#[test]
fn empty_corpus_gives_empty_result() {
    let tree = EmbeddingTree::new(vec![]);
    let dists: Vec<u32> = vec![];
    assert_eq!(tree.search(&dists, 5).len(), 0);
}

#[test]
fn zero_vector_is_maximally_distant() {
    let tree = EmbeddingTree::new(vec![
        row("zero.md", 1, &[0.0, 0.0]),
        row("match.md", 2, &[2.0, 0.0]),
    ]);
    let dists = distances(&[1.0, 0.0], &tree);
    let results = tree.search(&dists, 2);
    assert_eq!(paths(&results), vec!["match.md", "zero.md"]);
    assert!(f32::from_bits(results[1].distance).is_nan());
}

#[test]
fn rebuild_replaces_the_snapshot() {
    let mut tree = EmbeddingTree::new(vec![row("old.md", 1, &[1.0])]);
    tree.rebuild(vec![row("new.md", 1, &[1.0, 0.0]), row("other.md", 2, &[0.0, 1.0])]);
    assert_eq!(tree.rows.len(), 2);
    let dists = distances(&[1.0, 0.0], &tree);
    let results = tree.search(&dists, 5);
    assert_eq!(paths(&results), vec!["new.md", "other.md"]);
}
