//! The server's request protocol: parsing a request's bytes into one of
//! the two request kinds, framing responses, and the rebuild notification.
//!
//! The sockets themselves live outside the library; it receives the bytes
//! read from a connection and returns the strings to write back.

use crate::database::decoded_row;
use crate::database::refresh_all;
use crate::database::sentence_view;
use crate::database::store_rows;
use crate::database::EmbeddedSentence;
use crate::database::RowModel;
use crate::database::Store;
use crate::database::StoreError;
use crate::formatter::format_of_name;
use crate::formatter::OutputFormat;
use crate::search::EmbeddingTree;
use crate::strutil::dec_rep;
use crate::strutil::str_eq;
use crate::strutil::u64_to_string;
use crate::strutil::usize_to_string;
use vstd::prelude::*;
use vstd::string::StringSliceAdditionalSpecFns;

verus! {

/// What a parsed request asks for.
pub enum RequestType {
    /// A search: the query text and the output format.
    Search(String, OutputFormat),
    /// Reload the corpus into the index.
    Rebuild,
}

/// Why a request was refused.
#[derive(Debug)]
pub enum ProtocolError {
    /// The bytes do not parse as a request with a path.
    Malformed,
    /// The query string lacks the required key `q`.
    MissingQuery,
}

impl ProtocolError {
    /// A human-readable, never empty description; refused requests carry
    /// it as the response body.
    pub fn message(&self) -> (r: String)
        ensures
            r@.len() > 0,
    {
        proof {
            reveal_strlit("malformed request");
            reveal_strlit("no query in request");
        }
        match self {
            ProtocolError::Malformed => "malformed request".to_owned(),
            ProtocolError::MissingQuery => "no query in request".to_owned(),
        }
    }
}

/// What the HTTP parser makes of a request's bytes: the request-target
/// path, or `None` where the bytes do not parse to one. The result depends
/// on the bytes alone.
pub uninterp spec fn http_path_of(buf: Seq<u8>) -> Option<Seq<char>>;

/// What the URL parser makes of a request path appended to a fixed origin:
/// the decoded query pairs in order, or `None` where the path does not
/// parse. The result depends on the path alone.
pub uninterp spec fn url_query_pairs_of(path: Seq<char>) -> Option<Seq<(Seq<char>, Seq<char>)>>;

/// The views of a vector of string pairs.
pub open spec fn pair_views(s: Seq<(String, String)>) -> Seq<(Seq<char>, Seq<char>)> {
    s.map_values(|p: (String, String)| (p.0@, p.1@))
}

/// The value of the last pair carrying `key`, if any — later pairs win,
/// as when pairs are collected into a map.
pub open spec fn lookup_pair(pairs: Seq<(Seq<char>, Seq<char>)>, key: Seq<char>) -> Option<
    Seq<char>,
>
    decreases pairs.len(),
{
    if pairs.len() == 0 {
        None
    } else if pairs.last().0 == key {
        Some(pairs.last().1)
    } else {
        lookup_pair(pairs.drop_last(), key)
    }
}

/// The output format a query's pairs select: the `format` value when it
/// names a format, the raw format otherwise.
pub open spec fn search_format_of(pairs: Seq<(Seq<char>, Seq<char>)>) -> OutputFormat {
    match lookup_pair(pairs, "format"@) {
        None => OutputFormat::Raw,
        Some(name) => match format_of_name(name) {
            Some(f) => f,
            None => OutputFormat::Raw,
        },
    }
}

/// Relies on httparse's `Request::parse` with a sixteen-header table: the
/// request-target path of the buffer's request line, owned; `None` where
/// parsing fails or no complete path is present. The parse computes from
/// the bytes alone.
#[verifier::external_body]
fn http_request_path(buf: &Vec<u8>) -> (r: Option<String>)
    ensures
        r is Some <==> http_path_of(buf@) is Some,
        r is Some ==> r->0@ == http_path_of(buf@)->0,
{
    let mut headers = [httparse::EMPTY_HEADER; 16];
    let mut req = httparse::Request::new(&mut headers);
    match req.parse(buf.as_slice()) {
        Err(_) => None,
        Ok(_) => req.path.map(|p| p.to_string()),
    }
}

/// Relies on url's `Url::parse` and `Url::query_pairs`: the percent-decoded
/// query pairs of the path against a fixed local origin, in order; `None`
/// where the URL does not parse. Both compute from the path string alone.
#[verifier::external_body]
fn query_pairs_of_path(path: &str) -> (r: Option<Vec<(String, String)>>)
    ensures
        r is Some <==> url_query_pairs_of(path@) is Some,
        r is Some ==> pair_views(r->0@) == url_query_pairs_of(path@)->0,
{
    let full = format!("http://localhost{}", path);
    match url::Url::parse(&full) {
        Err(_) => None,
        Ok(u) => Some(u.query_pairs().into_owned().collect()),
    }
}

/// The value of the last pair carrying `key`, if any.
fn find_query_value(pairs: &Vec<(String, String)>, key: &str) -> (r: Option<String>)
    ensures
        r is Some <==> lookup_pair(pair_views(pairs@), key@) is Some,
        r is Some ==> r->0@ == lookup_pair(pair_views(pairs@), key@)->0,
{
    let ghost views = pair_views(pairs@);
    let mut i: usize = pairs.len();
    proof {
        assert(views.take(views.len() as int) =~= views);
    }
    while i > 0
        invariant
            i <= pairs@.len(),
            views == pair_views(pairs@),
            lookup_pair(views, key@) == lookup_pair(views.take(i as int), key@),
        decreases i,
    {
        i = i - 1;
        let hit = str_eq(pairs[i].0.as_str(), key);
        proof {
            assert(views.take(i + 1).last() == views[i as int]);
            assert(views.take(i + 1).drop_last() =~= views.take(i as int));
        }
        if hit {
            return Some(pairs[i].1.clone());
        }
    }
    proof {
        assert(views.take(0) =~= Seq::<(Seq<char>, Seq<char>)>::empty());
    }
    None
}

/// The response framing: status line, the two cross-origin headers, the
/// body's byte length, a blank line, the body.
pub open spec fn response_spec(code: nat, body: Seq<char>, body_bytes: nat) -> Seq<char> {
    "HTTP/1.1 "@ + dec_rep(code) + "\r\n"@ + "Access-Control-Allow-Origin: *\r\n"@
        + "Access-Control-Allow-Methods: GET\r\n"@ + "Content-Length: "@ + dec_rep(body_bytes)
        + "\r\n\r\n"@ + body
}

/// The rebuild notification request, as sent to the server's address.
pub open spec fn rebuild_request_spec(host: Seq<char>, port: nat) -> Seq<char> {
    "GET /rebuild HTTP/1.1\r\nHost: "@ + host + ":"@ + dec_rep(port) + "\r\n\r\n"@
}

/// Builds the one-line rebuild notification for the given server address.
pub fn rebuild_request(host: &str, port: u16) -> (r: String)
    ensures
        r@ == rebuild_request_spec(host@, port as nat),
{
    let mut s = "GET /rebuild HTTP/1.1\r\nHost: ".to_owned();
    s.append(host);
    s.append(":");
    let p = u64_to_string(port as u64);
    s.append(p.as_str());
    s.append("\r\n\r\n");
    s
}

/// The `host:port` form of the server's address.
pub fn server_addr(host: &str, port: u16) -> (r: String)
    ensures
        r@ == host@ + ":"@ + dec_rep(port as nat),
{
    let mut s = host.to_owned();
    s.append(":");
    let p = u64_to_string(port as u64);
    s.append(p.as_str());
    s
}

/// The single-threaded request handler; the accept loop around it performs
/// the reads and writes.
pub struct Server;

impl Server {
    /// Parses a request's bytes: the exact path `/rebuild` asks for a
    /// rebuild; any other path must carry a query key `q`, whose value is
    /// searched for, under the format the `format` key selects (the raw
    /// format when absent or unrecognised). Bytes without a parsable path,
    /// or a path whose query does not parse, are malformed; a parsed query
    /// without `q` is refused as missing the query.
    pub fn parse_request(buf: &Vec<u8>) -> (r: Result<RequestType, ProtocolError>)
        ensures
            ({
                let po = http_path_of(buf@);
                match r {
                    Ok(RequestType::Rebuild) => po is Some && po->0 == "/rebuild"@,
                    Ok(RequestType::Search(q, f)) => {
                        &&& po is Some
                        &&& po->0 != "/rebuild"@
                        &&& url_query_pairs_of(po->0) is Some
                        &&& lookup_pair(url_query_pairs_of(po->0)->0, "q"@) is Some
                        &&& q@ == lookup_pair(url_query_pairs_of(po->0)->0, "q"@)->0
                        &&& f == search_format_of(url_query_pairs_of(po->0)->0)
                    },
                    Err(ProtocolError::Malformed) => po is None || (po->0 != "/rebuild"@
                        && url_query_pairs_of(po->0) is None),
                    Err(ProtocolError::MissingQuery) => {
                        &&& po is Some
                        &&& po->0 != "/rebuild"@
                        &&& url_query_pairs_of(po->0) is Some
                        &&& lookup_pair(url_query_pairs_of(po->0)->0, "q"@) is None
                    },
                }
            }),
    {
        let path = match http_request_path(buf) {
            None => {
                return Err(ProtocolError::Malformed);
            },
            Some(p) => p,
        };
        if str_eq(path.as_str(), "/rebuild") {
            return Ok(RequestType::Rebuild);
        }
        let pairs = match query_pairs_of_path(path.as_str()) {
            None => {
                return Err(ProtocolError::Malformed);
            },
            Some(p) => p,
        };
        let q = match find_query_value(&pairs, "q") {
            None => {
                return Err(ProtocolError::MissingQuery);
            },
            Some(q) => q,
        };
        let fmt = match find_query_value(&pairs, "format") {
            None => OutputFormat::Raw,
            Some(name) => match OutputFormat::from_str(name.as_str()) {
                Ok(f) => f,
                Err(_) => OutputFormat::Raw,
            },
        };
        Ok(RequestType::Search(q, fmt))
    }

    /// Frames a response: the status code, the cross-origin headers, the
    /// body's byte length, and the body.
    pub fn format_response(code: u16, body: &str) -> (r: String)
        ensures
            r@ == response_spec(code as nat, body@, (body.spec_bytes().len() as usize) as nat),
    {
        let mut s = "HTTP/1.1 ".to_owned();
        let c = u64_to_string(code as u64);
        s.append(c.as_str());
        s.append("\r\n");
        s.append("Access-Control-Allow-Origin: *\r\n");
        s.append("Access-Control-Allow-Methods: GET\r\n");
        s.append("Content-Length: ");
        let n = usize_to_string(body.len());
        s.append(n.as_str());
        s.append("\r\n\r\n");
        s.append(body);
        s
    }

    /// Reloads the whole corpus from the store and replaces the index's
    /// snapshot with it; answers with the body `Rebuilt`. The read goes
    /// through [`refresh_all`]: the notification means another process
    /// wrote to the database, so the handle's view is re-established from
    /// what is committed now. On failure the index keeps its previous
    /// snapshot.
    pub fn handle_rebuild(tree: &mut EmbeddingTree, store: &mut Store) -> (r: Result<
        String,
        StoreError,
    >)
        ensures
            r is Ok ==> r->Ok_0@ == "Rebuilt"@,
            r is Ok ==> exists|raws: Seq<RowModel>|
                {
                    &&& raws.to_multiset() == store_rows(*final(store))
                    &&& forall|i: int|
                        0 <= i < raws.len() ==> (#[trigger] raws[i]).3.len() % 4 == 0
                    &&& final (tree).rows@.map_values(|e: EmbeddedSentence| sentence_view(e))
                        == raws.map_values(|v: RowModel| decoded_row(v))
                },
            r is Err ==> *final (tree) == *old(tree),
    {
        let corpus = match refresh_all(store) {
            Ok(corpus) => corpus,
            Err(e) => {
                return Err(e);
            },
        };
        tree.rebuild(corpus);
        Ok("Rebuilt".to_owned())
    }
}

} // verus!
