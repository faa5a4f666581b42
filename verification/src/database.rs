//! The persistent vector store: rows of `(path, start line, end line,
//! vector)` in a single-file SQL database, keyed logically by path.
//!
//! The store's contents are modelled as a multiset of raw rows, a row being
//! the tuple of the path's characters, the two line numbers, and the byte
//! blob encoding the vector. Vectors cross the store boundary as blobs; the
//! verified layer encodes on insert and decodes on read with the codec of
//! [`crate::codec`], rejecting blobs whose length is not a multiple of four.
//!
//! The model tracks a handle's view of the database under the system's
//! single-writer discipline: one logical writer mutates the store at a
//! time. A handle that only reads while that writer runs in another
//! process — the server's — re-establishes its view from the database on
//! every read, through [`refresh_all`].

use crate::codec::blob_of_vector;
use crate::codec::blob_to_vector;
use crate::codec::vector_of_blob;
use crate::codec::vector_to_blob;
use vstd::multiset::Multiset;
use vstd::prelude::*;
use vstd::seq_lib::group_to_multiset_ensures;

verus! {

/// A stored row as the rest of the system sees it: a path, 1-based
/// inclusive line numbers, and the vector's 32-bit components.
pub struct EmbeddedSentence {
    pub path: String,
    pub start_line_no: usize,
    pub end_line_no: usize,
    pub embedding: Vec<u32>,
}

impl Clone for EmbeddedSentence {
    /// A clone carries the same path, lines and vector.
    fn clone(&self) -> (r: Self)
        ensures
            sentence_view(r) == sentence_view(*self),
    {
        let embedding = self.embedding.clone();
        proof {
            assert(embedding@ =~= self.embedding@);
        }
        EmbeddedSentence {
            path: self.path.clone(),
            start_line_no: self.start_line_no,
            end_line_no: self.end_line_no,
            embedding,
        }
    }
}

/// A row as the store keeps it, with the vector still encoded.
pub(crate) struct RawRow {
    pub path: String,
    pub start_line_no: usize,
    pub end_line_no: usize,
    pub blob: Vec<u8>,
}

/// The mathematical value of a stored row.
pub type RowModel = (Seq<char>, int, int, Seq<u8>);

/// The mathematical value of a decoded row.
pub type SentenceModel = (Seq<char>, int, int, Seq<u32>);

/// The model of a raw row.
pub(crate) open spec fn raw_view(r: RawRow) -> RowModel {
    (r.path@, r.start_line_no as int, r.end_line_no as int, r.blob@)
}

/// The model of a decoded row.
pub open spec fn sentence_view(e: EmbeddedSentence) -> SentenceModel {
    (e.path@, e.start_line_no as int, e.end_line_no as int, e.embedding@)
}

/// The stored form of a decoded row: its vector encoded as a blob.
pub open spec fn stored_of_sentence(e: EmbeddedSentence) -> RowModel {
    (e.path@, e.start_line_no as int, e.end_line_no as int, blob_of_vector(e.embedding@))
}

/// Decoding a stored row's blob back into components.
pub open spec fn decoded_row(v: RowModel) -> SentenceModel {
    (v.0, v.1, v.2, vector_of_blob(v.3))
}

/// The models of a sequence of raw rows.
pub(crate) open spec fn raw_views(s: Seq<RawRow>) -> Seq<RowModel> {
    s.map_values(|r: RawRow| raw_view(r))
}

/// The stored forms of a sequence of decoded rows.
pub open spec fn stored_views(s: Seq<EmbeddedSentence>) -> Seq<RowModel> {
    s.map_values(|e: EmbeddedSentence| stored_of_sentence(e))
}

/// Why a store operation failed.
#[derive(Debug)]
pub enum StoreError {
    /// The database engine reported an error; the text is its message.
    Sql(String),
    /// A stored blob's length is not a multiple of four.
    MalformedBlob,
}

impl StoreError {
    /// A human-readable, never empty description.
    pub fn message(&self) -> (r: String)
        ensures
            r@.len() > 0,
    {
        proof {
            reveal_strlit("store error: ");
            reveal_strlit("malformed vector blob length");
        }
        match self {
            StoreError::Sql(m) => {
                let mut s = "store error: ".to_owned();
                s.append(m.as_str());
                s
            },
            StoreError::MalformedBlob => "malformed vector blob length".to_owned(),
        }
    }
}

/// A handle on the store's database file.
#[verifier::external_body]
pub struct Store {
    conn: rusqlite::Connection,
}

/// The rows the store holds, as a multiset: the store promises no order.
pub uninterp spec fn store_rows(s: Store) -> Multiset<RowModel>;

/// The predicate keeping the rows whose path is not `path`.
pub open spec fn other_paths(path: Seq<char>) -> spec_fn(RowModel) -> bool {
    |v: RowModel| v.0 != path
}

/// The predicate keeping the rows whose path is `path`.
pub open spec fn same_path(path: Seq<char>) -> spec_fn(RowModel) -> bool {
    |v: RowModel| v.0 == path
}

impl Store {
    /// Relies on rusqlite's `Connection::open` and `Connection::execute`:
    /// opens or creates the database file and creates the rows table if it
    /// is absent, leaving existing rows alone.
    #[verifier::external_body]
    fn open_raw(db_path: &str) -> (r: Result<Store, String>) {
        let conn = rusqlite::Connection::open(db_path).map_err(|e| e.to_string())?;
        conn.execute(
            "CREATE TABLE IF NOT EXISTS sentences (id INTEGER PRIMARY KEY, path TEXT, start_line_no INTEGER, end_line_no INTEGER, embedding BLOB)",
            (),
        ).map_err(|e| e.to_string())?;
        Ok(Store { conn })
    }

    /// Relies on rusqlite's `Connection::prepare` and `Statement::query_map`:
    /// a `SELECT` of every row, each mapped to a [`RawRow`] field for field.
    /// Stating the result as the handle's unchanged model assumes no other
    /// process has written to the database since this handle's last
    /// operation; a handle read concurrently with the system's writer goes
    /// through [`Store::refresh_rows_raw`] instead.
    #[verifier::external_body]
    fn read_rows_raw(&self) -> (r: Result<Vec<RawRow>, String>)
        ensures
            r is Ok ==> raw_views(r->Ok_0@).to_multiset() == store_rows(*self),
    {
        let mut stmt = self.conn.prepare(
            "SELECT path, start_line_no, end_line_no, embedding FROM sentences",
        ).map_err(|e| e.to_string())?;
        let rows = stmt.query_map([], |row| {
            Ok(RawRow {
                path: row.get(0)?,
                start_line_no: row.get(1)?,
                end_line_no: row.get(2)?,
                blob: row.get(3)?,
            })
        }).map_err(|e| e.to_string())?.collect::<Result<Vec<RawRow>, _>>().map_err(
            |e| e.to_string(),
        )?;
        Ok(rows)
    }

    /// Relies on rusqlite's `Connection::transaction`, `Transaction::execute`
    /// and `Transaction::commit`: inserts every row in one transaction, so a
    /// failure rolls back and leaves the store as it was.
    #[verifier::external_body]
    fn insert_rows_raw(&mut self, rows: &Vec<RawRow>) -> (r: Result<(), String>)
        ensures
            r is Ok ==> store_rows(*final(self)) == store_rows(*old(self)).add(
                raw_views(rows@).to_multiset(),
            ),
            r is Err ==> store_rows(*final(self)) == store_rows(*old(self)),
    {
        let tx = self.conn.transaction().map_err(|e| e.to_string())?;
        for row in rows {
            tx.execute(
                "INSERT INTO sentences (path, start_line_no, end_line_no, embedding) VALUES (?1, ?2, ?3, ?4)",
                (&row.path, &row.start_line_no, &row.end_line_no, &row.blob),
            ).map_err(|e| e.to_string())?;
        }
        tx.commit().map_err(|e| e.to_string())
    }

    /// Relies on rusqlite's `Connection::execute`: one `DELETE` statement
    /// removing exactly the rows whose path matches. SQLite statements are
    /// atomic — a failing statement reverts its own changes — so on error
    /// the store keeps its prior committed state.
    #[verifier::external_body]
    fn delete_path_raw(&mut self, path: &str) -> (r: Result<(), String>)
        ensures
            r is Ok ==> store_rows(*final(self)) == store_rows(*old(self)).filter(
                other_paths(path@),
            ),
            r is Err ==> store_rows(*final(self)) == store_rows(*old(self)),
    {
        self.conn.execute("DELETE FROM sentences WHERE path = ?1", (path,))
            .map(|_| ())
            .map_err(|e| e.to_string())
    }

    /// Relies on rusqlite's `Connection::execute`: one `DELETE` statement
    /// removing every row. SQLite statements are atomic — a failing
    /// statement reverts its own changes — so on error the store keeps its
    /// prior committed state.
    #[verifier::external_body]
    fn delete_all_raw(&mut self) -> (r: Result<(), String>)
        ensures
            r is Ok ==> store_rows(*final(self)) == Multiset::<RowModel>::empty(),
            r is Err ==> store_rows(*final(self)) == store_rows(*old(self)),
    {
        self.conn.execute("DELETE FROM sentences", []).map(|_| ()).map_err(|e| e.to_string())
    }

    /// Relies on rusqlite's `Connection::prepare` and `Statement::query_map`,
    /// as [`Store::read_rows_raw`] does, but for a handle whose database
    /// other processes may have written through their own connections: the
    /// `SELECT` reads the table as it stands now, and the handle's model is
    /// re-established from what was read, with no tie to its previous value.
    #[verifier::external_body]
    fn refresh_rows_raw(&mut self) -> (r: Result<Vec<RawRow>, String>)
        ensures
            r is Ok ==> store_rows(*final(self)) == raw_views(r->Ok_0@).to_multiset(),
    {
        let mut stmt = self.conn.prepare(
            "SELECT path, start_line_no, end_line_no, embedding FROM sentences",
        ).map_err(|e| e.to_string())?;
        let rows = stmt.query_map([], |row| {
            Ok(RawRow {
                path: row.get(0)?,
                start_line_no: row.get(1)?,
                end_line_no: row.get(2)?,
                blob: row.get(3)?,
            })
        }).map_err(|e| e.to_string())?.collect::<Result<Vec<RawRow>, _>>().map_err(
            |e| e.to_string(),
        )?;
        Ok(rows)
    }
}

/// Opens the store at `db_path`, creating the file and the table if they
/// are absent. Idempotent; existing rows are kept.
pub fn start(db_path: &str) -> (r: Result<Store, StoreError>) {
    match Store::open_raw(db_path) {
        Ok(s) => Ok(s),
        Err(m) => Err(StoreError::Sql(m)),
    }
}

/// Decodes raw rows into their 32-bit components: all of them, in order,
/// or [`StoreError::MalformedBlob`] when one carries a blob whose length
/// is not a multiple of four.
pub(crate) fn decode_rows(rows: &Vec<RawRow>) -> (r: Result<Vec<EmbeddedSentence>, StoreError>)
    ensures
        r is Ok ==> forall|j: int|
            0 <= j < rows@.len() ==> (#[trigger] raw_views(rows@)[j]).3.len() % 4 == 0,
        r is Ok ==> r->Ok_0@.map_values(|e: EmbeddedSentence| sentence_view(e)) == raw_views(
            rows@,
        ).map_values(|v: RowModel| decoded_row(v)),
        r is Err ==> r->Err_0 is MalformedBlob && exists|j: int|
            0 <= j < rows@.len() && (#[trigger] raw_views(rows@)[j]).3.len() % 4 != 0,
{
    let ghost raws = raw_views(rows@);
    let mut out: Vec<EmbeddedSentence> = Vec::new();
    let mut i: usize = 0;
    while i < rows.len()
        invariant
            i <= rows@.len(),
            raws == raw_views(rows@),
            out@.len() == i,
            forall|j: int| 0 <= j < i ==> (#[trigger] raws[j]).3.len() % 4 == 0,
            forall|j: int|
                0 <= j < i ==> sentence_view(#[trigger] out@[j]) == decoded_row(raws[j]),
        decreases rows@.len() - i,
    {
        let decoded = match blob_to_vector(&rows[i].blob) {
            Some(v) => v,
            None => {
                proof {
                    assert(raws[i as int].3 == rows@[i as int].blob@);
                }
                return Err(StoreError::MalformedBlob);
            },
        };
        let row = &rows[i];
        out.push(
            EmbeddedSentence {
                path: row.path.clone(),
                start_line_no: row.start_line_no,
                end_line_no: row.end_line_no,
                embedding: decoded,
            },
        );
        i = i + 1;
    }
    proof {
        assert(out@.map_values(|e: EmbeddedSentence| sentence_view(e)) =~= raws.map_values(
            |v: RowModel| decoded_row(v),
        ));
    }
    Ok(out)
}

/// Reads every row, decoding each blob into its 32-bit components.
///
/// On success the result is exactly the store's rows, each decoded; the
/// order is unspecified. A blob whose length is not a multiple of four is
/// answered with [`StoreError::MalformedBlob`], and such an error occurs
/// only when the store holds such a row.
///
/// The read is stated against the handle's unchanged model, which assumes
/// no other process has written to the database since the handle's last
/// operation. The one reader that runs concurrently with the system's
/// writer — the server — reads through [`refresh_all`] instead.
pub fn get_all(store: &Store) -> (r: Result<Vec<EmbeddedSentence>, StoreError>)
    ensures
        r is Ok ==> exists|raws: Seq<RowModel>|
            {
                &&& raws.to_multiset() == store_rows(*store)
                &&& forall|i: int| 0 <= i < raws.len() ==> (#[trigger] raws[i]).3.len() % 4 == 0
                &&& r->Ok_0@.map_values(|e: EmbeddedSentence| sentence_view(e))
                    == raws.map_values(|v: RowModel| decoded_row(v))
            },
        r matches Err(StoreError::MalformedBlob) ==> exists|v: RowModel|
            store_rows(*store).count(v) > 0 && v.3.len() % 4 != 0,
{
    let rows = match store.read_rows_raw() {
        Ok(rows) => rows,
        Err(m) => {
            return Err(StoreError::Sql(m));
        },
    };
    let ghost raws = raw_views(rows@);
    match decode_rows(&rows) {
        Ok(out) => Ok(out),
        Err(e) => {
            proof {
                broadcast use group_to_multiset_ensures;

                if e is MalformedBlob {
                    let j = choose|j: int|
                        0 <= j < rows@.len() && (#[trigger] raws[j]).3.len() % 4 != 0;
                    assert(raws.contains(raws[j]));
                    assert(raws.to_multiset().count(raws[j]) > 0);
                }
            }
            Err(e)
        },
    }
}

/// Reads every row as [`get_all`] does, through a handle whose database
/// another process may have written meanwhile: the handle's model is
/// re-established from this read, so the result reflects the writes
/// committed before it.
pub fn refresh_all(store: &mut Store) -> (r: Result<Vec<EmbeddedSentence>, StoreError>)
    ensures
        r is Ok ==> exists|raws: Seq<RowModel>|
            {
                &&& raws.to_multiset() == store_rows(*final(store))
                &&& forall|i: int| 0 <= i < raws.len() ==> (#[trigger] raws[i]).3.len() % 4 == 0
                &&& r->Ok_0@.map_values(|e: EmbeddedSentence| sentence_view(e))
                    == raws.map_values(|v: RowModel| decoded_row(v))
            },
        r matches Err(StoreError::MalformedBlob) ==> exists|v: RowModel|
            store_rows(*final(store)).count(v) > 0 && v.3.len() % 4 != 0,
{
    let rows = match store.refresh_rows_raw() {
        Ok(rows) => rows,
        Err(m) => {
            return Err(StoreError::Sql(m));
        },
    };
    let ghost raws = raw_views(rows@);
    match decode_rows(&rows) {
        Ok(out) => Ok(out),
        Err(e) => {
            proof {
                broadcast use group_to_multiset_ensures;

                if e is MalformedBlob {
                    let j = choose|j: int|
                        0 <= j < rows@.len() && (#[trigger] raws[j]).3.len() % 4 != 0;
                    assert(raws.contains(raws[j]));
                    assert(raws.to_multiset().count(raws[j]) > 0);
                }
            }
            Err(e)
        },
    }
}

/// Inserts the given rows, encoding each vector as a little-endian blob,
/// in a single transaction: on success the store gains exactly these rows;
/// on failure it is unchanged.
pub fn insert_many(store: &mut Store, embs: &Vec<EmbeddedSentence>) -> (r: Result<(), StoreError>)
    ensures
        r is Ok ==> store_rows(*final(store)) == store_rows(*old(store)).add(
            stored_views(embs@).to_multiset(),
        ),
        r is Err ==> store_rows(*final(store)) == store_rows(*old(store)),
{
    let mut rows: Vec<RawRow> = Vec::new();
    let mut i: usize = 0;
    while i < embs.len()
        invariant
            i <= embs@.len(),
            rows@.len() == i,
            forall|j: int|
                0 <= j < i ==> raw_view(#[trigger] rows@[j]) == stored_of_sentence(embs@[j]),
        decreases embs@.len() - i,
    {
        let e = &embs[i];
        let blob = vector_to_blob(&e.embedding);
        rows.push(
            RawRow {
                path: e.path.clone(),
                start_line_no: e.start_line_no,
                end_line_no: e.end_line_no,
                blob,
            },
        );
        i = i + 1;
    }
    proof {
        assert(raw_views(rows@) =~= stored_views(embs@));
    }
    match store.insert_rows_raw(&rows) {
        Ok(()) => Ok(()),
        Err(m) => Err(StoreError::Sql(m)),
    }
}

/// Removes every row whose path is `path`; the others are untouched. On
/// failure the error surfaces and the store keeps its prior committed
/// state.
pub fn delete_file(store: &mut Store, path: &str) -> (r: Result<(), StoreError>)
    ensures
        r is Ok ==> store_rows(*final(store)) == store_rows(*old(store)).filter(
            other_paths(path@),
        ),
        r is Err ==> store_rows(*final(store)) == store_rows(*old(store)),
{
    match store.delete_path_raw(path) {
        Ok(()) => Ok(()),
        Err(m) => Err(StoreError::Sql(m)),
    }
}

/// Removes every row. On failure the error surfaces and the store keeps
/// its prior committed state.
pub fn delete_all(store: &mut Store) -> (r: Result<(), StoreError>)
    ensures
        r is Ok ==> store_rows(*final(store)) == Multiset::<RowModel>::empty(),
        r is Err ==> store_rows(*final(store)) == store_rows(*old(store)),
{
    match store.delete_all_raw() {
        Ok(()) => Ok(()),
        Err(m) => Err(StoreError::Sql(m)),
    }
}

/// Decoding inverts the store's encoding: a row written through
/// [`insert_many`] and read back through [`get_all`] carries the same
/// vector, component for component, bit for bit.
pub proof fn lemma_store_round_trip(e: EmbeddedSentence)
    ensures
        decoded_row(stored_of_sentence(e)) == sentence_view(e),
{
    crate::codec::lemma_vector_blob_round_trip(e.embedding@);
}

} // verus!
