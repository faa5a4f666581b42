//! The indexer: reconciling the store with a file's content.
//!
//! A file's content parses into blocks, each a contiguous line range with
//! its text; the caller embeds each block's text and hands the resulting
//! rows to [`process_and_store_file`], which replaces the path's rows with
//! them — delete, then insert in batches — so that after a successful
//! reindex the store holds exactly the rows derived from the file's current
//! content for that path.

use crate::database::delete_file as store_delete_file;
use crate::database::insert_many;
use crate::database::other_paths;
use crate::database::same_path;
use crate::database::sentence_view;
use crate::database::stored_views;
use crate::database::store_rows;
use crate::database::EmbeddedSentence;
use crate::database::RowModel;
use crate::database::Store;
use crate::database::StoreError;
use vstd::multiset::group_multiset_axioms;
use vstd::multiset::Multiset;
use vstd::prelude::*;
use vstd::seq_lib::group_to_multiset_ensures;
use vstd::seq_lib::lemma_multiset_commutative;

verus! {

/// How many rows one insert transaction carries.
pub const INSERT_BATCH: usize = 10;

/// A contiguous region of a source file: 1-based inclusive line numbers
/// and the region's text. A single-line block has `start_line_no ==
/// end_line_no`.
pub struct Block {
    pub start_line_no: usize,
    pub end_line_no: usize,
    pub text: String,
}

/// The mathematical value of a block.
pub open spec fn block_view(b: Block) -> (int, int, Seq<char>) {
    (b.start_line_no as int, b.end_line_no as int, b.text@)
}

/// What the Markdown parser makes of a content string: `None` where it
/// reports an error, otherwise the top-level blocks in document order. The
/// result depends on the content alone.
pub uninterp spec fn md_blocks(content: Seq<char>) -> Option<Seq<(int, int, Seq<char>)>>;

/// Why a file could not be parsed.
#[derive(Debug)]
pub enum ParseError {
    /// The parser rejected the content.
    Malformed,
}

impl ParseError {
    /// A human-readable, never empty description.
    pub fn message(&self) -> (r: String)
        ensures
            r@.len() > 0,
    {
        proof {
            reveal_strlit("could not parse file content");
        }
        "could not parse file content".to_owned()
    }
}

/// Relies on markdown's `to_mdast` with default options, and on `Node`'s
/// `children`, `position` and `to_string`: the root's children in document
/// order, each with its 1-based inclusive start and end lines and its text.
/// `to_mdast` computes from the content string alone.
#[verifier::external_body]
fn extract_blocks_raw(content: &str) -> (r: Option<Vec<Block>>)
    ensures
        r is Some <==> md_blocks(content@) is Some,
        r is Some ==> r->0@.map_values(|b: Block| block_view(b)) == md_blocks(content@)->0,
{
    let opts = markdown::ParseOptions::default();
    match markdown::to_mdast(content, &opts) {
        Err(_) => None,
        Ok(ast) => {
            let mut out = Vec::new();
            for child in ast.children().into_iter().flatten() {
                let (start_line_no, end_line_no) = match child.position() {
                    Some(p) => (p.start.line, p.end.line),
                    None => (0, 0),
                };
                out.push(Block { start_line_no, end_line_no, text: child.to_string() });
            }
            Some(out)
        },
    }
}

/// Parses a file's content into its top-level blocks, in document order.
/// Content the parser rejects is answered with an error and nothing else
/// happens.
pub fn extract_blocks(content: &str) -> (r: Result<Vec<Block>, ParseError>)
    ensures
        r is Ok <==> md_blocks(content@) is Some,
        r is Ok ==> r->Ok_0@.map_values(|b: Block| block_view(b)) == md_blocks(content@)->0,
{
    match extract_blocks_raw(content) {
        Some(blocks) => Ok(blocks),
        None => Err(ParseError::Malformed),
    }
}

/// Whether a path names a Markdown file: its final component ends in the
/// (lowercase) extension `.md` with a non-empty stem.
pub open spec fn is_md_path(s: Seq<char>) -> bool {
    &&& s.len() >= 4
    &&& s[s.len() - 1] == 'd'
    &&& s[s.len() - 2] == 'm'
    &&& s[s.len() - 3] == '.'
    &&& s[s.len() - 4] != '/'
}

/// Whether a path names a Markdown file.
pub fn is_markdown_file(path: &str) -> (r: bool)
    ensures
        r == is_md_path(path@),
{
    let n = path.unicode_len();
    if n < 4 {
        return false;
    }
    path.get_char(n - 1) == 'd' && path.get_char(n - 2) == 'm' && path.get_char(n - 3) == '.'
        && path.get_char(n - 4) != '/'
}

/// Replaces the store's rows for `path` with the given rows, all of which
/// carry that path: first the path's old rows are deleted, then the new
/// rows are inserted in batches of [`INSERT_BATCH`].
///
/// On success the store holds the other paths' rows unchanged plus exactly
/// the given rows. A failure surfaces the store's error and leaves the
/// store either in its prior committed state or — transiently, as a
/// mid-reindex state — with the path's old rows deleted and some prefix of
/// the batches inserted; the path is fully rebuilt by the next reindex.
pub fn process_and_store_file(store: &mut Store, path: &str, rows: &Vec<EmbeddedSentence>) -> (r:
    Result<(), StoreError>)
    requires
        forall|i: int| 0 <= i < rows@.len() ==> (#[trigger] rows@[i]).path@ == path@,
    ensures
        r is Ok ==> store_rows(*final(store)) == store_rows(*old(store)).filter(
            other_paths(path@),
        ).add(stored_views(rows@).to_multiset()),
        r is Err ==> store_rows(*final(store)) == store_rows(*old(store)) || exists|k: int|
            0 <= k <= rows@.len() && store_rows(*final(store)) == store_rows(*old(store)).filter(
                other_paths(path@),
            ).add(stored_views(rows@.take(k)).to_multiset()),
{
    store_delete_file(store, path)?;
    let ghost base = store_rows(*store);
    let mut i: usize = 0;
    proof {
        broadcast use group_multiset_axioms, group_to_multiset_ensures;

        assert(stored_views(rows@.take(0)) =~= Seq::<RowModel>::empty());
        assert(base.add(stored_views(rows@.take(0)).to_multiset()) =~= base);
    }
    while i < rows.len()
        invariant
            i <= rows@.len(),
            base == store_rows(*old(store)).filter(other_paths(path@)),
            store_rows(*store) == base.add(stored_views(rows@.take(i as int)).to_multiset()),
        decreases rows@.len() - i,
    {
        let mut chunk: Vec<EmbeddedSentence> = Vec::new();
        let mut j: usize = i;
        while j < rows.len() && j - i < INSERT_BATCH
            invariant
                i <= j <= rows@.len(),
                j - i <= INSERT_BATCH,
                chunk@.len() == j - i,
                forall|m: int|
                    0 <= m < chunk@.len() ==> sentence_view(#[trigger] chunk@[m]) == sentence_view(
                        rows@[i + m],
                    ),
            decreases rows@.len() - j,
        {
            chunk.push(rows[j].clone());
            j = j + 1;
        }
        proof {
            broadcast use group_multiset_axioms, group_to_multiset_ensures;

            assert(stored_views(chunk@) =~= stored_views(rows@.subrange(i as int, j as int)));
        }
        match insert_many(store, &chunk) {
            Ok(()) => {},
            Err(e) => {
                proof {
                    assert(store_rows(*store) == store_rows(*old(store)).filter(
                        other_paths(path@),
                    ).add(stored_views(rows@.take(i as int)).to_multiset()));
                }
                return Err(e);
            },
        }
        proof {
            broadcast use group_multiset_axioms;

            let pre = rows@.take(i as int);
            let mid = rows@.subrange(i as int, j as int);
            assert(rows@.take(j as int) =~= pre + mid);
            assert(stored_views(pre + mid) =~= stored_views(pre) + stored_views(mid));
            lemma_multiset_commutative(stored_views(pre), stored_views(mid));
            assert(base.add(stored_views(pre).to_multiset()).add(
                stored_views(mid).to_multiset(),
            ) =~= base.add(stored_views(rows@.take(j as int)).to_multiset()));
        }
        i = j;
    }
    proof {
        assert(rows@.take(rows@.len() as int) =~= rows@);
    }
    Ok(())
}

/// The stored row derived from one block and its embedding.
pub open spec fn derived_row(path: Seq<char>, b: Block, emb: Seq<u32>) -> RowModel {
    (path, b.start_line_no as int, b.end_line_no as int, crate::codec::blob_of_vector(emb))
}

/// The stored rows derived from a file's blocks and their embeddings.
pub open spec fn derived_rows(path: Seq<char>, blocks: Seq<Block>, embs: Seq<Vec<u32>>) -> Seq<
    RowModel,
>
    recommends
        blocks.len() == embs.len(),
{
    Seq::new(blocks.len(), |i: int| derived_row(path, blocks[i], embs[i]@))
}

/// Reindexes one file: replaces the store's rows for `path` with the rows
/// derived from the file's blocks, each paired with the embedding of its
/// text. On success the store holds the other paths' rows unchanged plus
/// exactly the derived rows; on failure it is either untouched or in the
/// transient mid-reindex state — old rows for the path deleted, a prefix of
/// the batches inserted — that the next reindex of the path repairs.
pub fn recompute_file(
    store: &mut Store,
    path: &str,
    blocks: &Vec<Block>,
    embeddings: &Vec<Vec<u32>>,
) -> (r: Result<(), StoreError>)
    requires
        blocks@.len() == embeddings@.len(),
    ensures
        r is Ok ==> store_rows(*final(store)) == store_rows(*old(store)).filter(
            other_paths(path@),
        ).add(derived_rows(path@, blocks@, embeddings@).to_multiset()),
        r is Err ==> store_rows(*final(store)) == store_rows(*old(store)) || exists|k: int|
            0 <= k <= blocks@.len() && store_rows(*final(store)) == store_rows(*old(store)).filter(
                other_paths(path@),
            ).add(derived_rows(path@, blocks@, embeddings@).take(k).to_multiset()),
{
    let mut rows: Vec<EmbeddedSentence> = Vec::new();
    let mut i: usize = 0;
    while i < blocks.len()
        invariant
            i <= blocks@.len(),
            blocks@.len() == embeddings@.len(),
            rows@.len() == i,
            forall|j: int| 0 <= j < i ==> (#[trigger] rows@[j]).path@ == path@,
            forall|j: int|
                0 <= j < i ==> crate::database::stored_of_sentence(#[trigger] rows@[j])
                    == derived_row(path@, blocks@[j], embeddings@[j]@),
        decreases blocks@.len() - i,
    {
        rows.push(
            EmbeddedSentence {
                path: path.to_owned(),
                start_line_no: blocks[i].start_line_no,
                end_line_no: blocks[i].end_line_no,
                embedding: embeddings[i].clone(),
            },
        );
        proof {
            let j = i as int;
            assert(rows@[j].embedding@ =~= embeddings@[j]@);
        }
        i = i + 1;
    }
    let ghost derived = derived_rows(path@, blocks@, embeddings@);
    proof {
        assert(stored_views(rows@) =~= derived);
    }
    match process_and_store_file(store, path, &rows) {
        Ok(()) => Ok(()),
        Err(e) => {
            proof {
                if store_rows(*store) != store_rows(*old(store)) {
                    let k = choose|k: int|
                        0 <= k <= rows@.len() && store_rows(*store) == store_rows(*old(store)).filter(
                            other_paths(path@),
                        ).add(stored_views(rows@.take(k)).to_multiset());
                    assert(stored_views(rows@.take(k)) =~= stored_views(rows@).take(k));
                    assert(store_rows(*store) == store_rows(*old(store)).filter(
                        other_paths(path@),
                    ).add(derived.take(k).to_multiset()));
                }
            }
            Err(e)
        },
    }
}

/// Removes every row for `path` from the store, without parsing anything;
/// the deletion path for a removed file. On failure the error surfaces and
/// the store keeps its prior committed state.
pub fn delete_file(store: &mut Store, path: &str) -> (r: Result<(), StoreError>)
    ensures
        r is Ok ==> store_rows(*final(store)) == store_rows(*old(store)).filter(
            other_paths(path@),
        ),
        r is Err ==> store_rows(*final(store)) == store_rows(*old(store)),
{
    store_delete_file(store, path)
}

/// After a successful reindex of `path` the store is exact: the rows with
/// that path are precisely the freshly derived ones — no stale rows, no
/// duplicates beyond theirs — and every other path's rows are untouched.
pub proof fn lemma_reindex_exact(
    old_rows: Multiset<RowModel>,
    new_rows: Seq<RowModel>,
    path: Seq<char>,
)
    requires
        forall|i: int| 0 <= i < new_rows.len() ==> (#[trigger] new_rows[i]).0 == path,
    ensures
        ({
            let updated = old_rows.filter(other_paths(path)).add(new_rows.to_multiset());
            &&& updated.filter(same_path(path)) == new_rows.to_multiset()
            &&& updated.filter(other_paths(path)) == old_rows.filter(other_paths(path))
        }),
{
    broadcast use group_multiset_axioms, group_to_multiset_ensures;

    let kept = old_rows.filter(other_paths(path));
    let fresh = new_rows.to_multiset();
    let updated = kept.add(fresh);
    assert forall|v: RowModel| fresh.count(v) > 0 implies v.0 == path by {
        assert(new_rows.contains(v));
        let i = choose|i: int| 0 <= i < new_rows.len() && new_rows[i] == v;
        assert(new_rows[i].0 == path);
    }
    assert forall|v: RowModel| #[trigger] updated.filter(same_path(path)).count(v) == fresh.count(
        v,
    ) by {
        if v.0 == path {
            assert(kept.count(v) == 0);
        } else {
            assert(fresh.count(v) == 0);
        }
    }
    assert(updated.filter(same_path(path)) =~= fresh);
    assert forall|v: RowModel| #[trigger] updated.filter(other_paths(path)).count(v) == kept.count(
        v,
    ) by {
        if v.0 == path {
            assert(kept.count(v) == 0);
        } else {
            assert(fresh.count(v) == 0);
        }
    }
    assert(updated.filter(other_paths(path)) =~= kept);
    assert(kept.filter(other_paths(path)) =~= kept);
}

/// Reindexing is idempotent modulo row identity: reindexing `path` twice
/// with the same derived rows leaves the store exactly as one reindex does.
pub proof fn lemma_reindex_idempotent(
    old_rows: Multiset<RowModel>,
    new_rows: Seq<RowModel>,
    path: Seq<char>,
)
    requires
        forall|i: int| 0 <= i < new_rows.len() ==> (#[trigger] new_rows[i]).0 == path,
    ensures
        ({
            let once = old_rows.filter(other_paths(path)).add(new_rows.to_multiset());
            let twice = once.filter(other_paths(path)).add(new_rows.to_multiset());
            twice == once
        }),
{
    lemma_reindex_exact(old_rows, new_rows, path);
}

/// A file that parses to zero blocks leaves its path with zero rows after
/// a reindex.
pub proof fn lemma_reindex_empty(old_rows: Multiset<RowModel>, path: Seq<char>)
    ensures
        ({
            let updated = old_rows.filter(other_paths(path)).add(
                Seq::<RowModel>::empty().to_multiset(),
            );
            forall|v: RowModel| #[trigger] updated.count(v) > 0 ==> v.0 != path
        }),
{
    broadcast use group_multiset_axioms, group_to_multiset_ensures;

    lemma_reindex_exact(old_rows, Seq::<RowModel>::empty(), path);
}

/// After deleting a path, and before any further write, the store holds no
/// row with that path: any sequence of rows read back from it — the store
/// then holds `rows.filter(other_paths(path))` — carries only other paths.
pub proof fn lemma_delete_removes_path(
    rows: Multiset<RowModel>,
    read_back: Seq<RowModel>,
    path: Seq<char>,
)
    requires
        read_back.to_multiset() == rows.filter(other_paths(path)),
    ensures
        forall|i: int| 0 <= i < read_back.len() ==> (#[trigger] read_back[i]).0 != path,
{
    broadcast use group_multiset_axioms, group_to_multiset_ensures;

    assert forall|i: int| 0 <= i < read_back.len() implies (#[trigger] read_back[i]).0
        != path by {
        assert(read_back.contains(read_back[i]));
        assert(read_back.to_multiset().count(read_back[i]) > 0);
    }
}

} // verus!
