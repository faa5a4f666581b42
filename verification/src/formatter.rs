//! Rendering of search results.
//!
//! The core produces structured results; this module renders the raw and
//! list formats exactly. JSON rendering and file-content lookup need the
//! surrounding process (serialisation, file reads); it passes the content
//! lines and the rendered distance text in, and receives strings back.

use crate::strutil::dec_rep;
use crate::strutil::str_eq;
use crate::strutil::usize_to_string;
use vstd::prelude::*;

verus! {

/// One of the closed set of output formats.
#[derive(Clone, Copy, Debug, PartialEq, Eq, Structural)]
pub enum OutputFormat {
    List,
    Raw,
    Json,
}

/// The format named by a string, if any.
pub open spec fn format_of_name(s: Seq<char>) -> Option<OutputFormat> {
    if s == "list"@ {
        Some(OutputFormat::List)
    } else if s == "raw"@ {
        Some(OutputFormat::Raw)
    } else if s == "json"@ {
        Some(OutputFormat::Json)
    } else {
        None
    }
}

impl OutputFormat {
    /// Parses a format name.
    pub fn from_str(s: &str) -> (r: Result<OutputFormat, String>)
        ensures
            r is Ok <==> format_of_name(s@) is Some,
            r is Ok ==> r->Ok_0 == format_of_name(s@)->0,
            r is Err ==> r->Err_0@ == "Invalid output format"@,
    {
        if str_eq(s, "list") {
            Ok(OutputFormat::List)
        } else if str_eq(s, "raw") {
            Ok(OutputFormat::Raw)
        } else if str_eq(s, "json") {
            Ok(OutputFormat::Json)
        } else {
            Err("Invalid output format".to_owned())
        }
    }
}

/// A search result enriched with what rendering needs: the quoted file
/// content between the result's lines, and the caller's decimal rendering
/// of the 32-bit distance (the core does not render such values).
pub struct SearchResultWithContext {
    pub path: String,
    pub start_line_no: usize,
    pub end_line_no: usize,
    pub distance: u32,
    pub distance_display: String,
    pub context: String,
}

/// One raw-format line: `path:start:end` and a newline.
pub open spec fn raw_line_spec(r: SearchResultWithContext) -> Seq<char> {
    r.path@ + ":"@ + dec_rep(r.start_line_no as nat) + ":"@ + dec_rep(r.end_line_no as nat)
        + "\n"@
}

/// The raw format: one line per result, in order.
pub open spec fn raw_render_spec(rs: Seq<SearchResultWithContext>) -> Seq<char>
    decreases rs.len(),
{
    if rs.len() == 0 {
        Seq::empty()
    } else {
        raw_line_spec(rs.first()) + raw_render_spec(rs.drop_first())
    }
}

proof fn lemma_raw_render_push(rs: Seq<SearchResultWithContext>, x: SearchResultWithContext)
    ensures
        raw_render_spec(rs.push(x)) == raw_render_spec(rs) + raw_line_spec(x),
    decreases rs.len(),
{
    if rs.len() == 0 {
        assert(rs.push(x).first() == x);
        assert(rs.push(x).drop_first() =~= Seq::<SearchResultWithContext>::empty());
        assert(raw_render_spec(rs.push(x).drop_first()) == Seq::<char>::empty());
        assert(raw_render_spec(rs.push(x)) =~= raw_render_spec(rs) + raw_line_spec(x));
    } else {
        assert(rs.push(x).first() == rs.first());
        assert(rs.push(x).drop_first() =~= rs.drop_first().push(x));
        lemma_raw_render_push(rs.drop_first(), x);
        assert(raw_render_spec(rs.push(x)) =~= raw_render_spec(rs) + raw_line_spec(x));
    }
}

/// One list-format block: a title line `path:start:end - distance`, then
/// the quoted content.
pub open spec fn list_block_spec(r: SearchResultWithContext) -> Seq<char> {
    r.path@ + ":"@ + dec_rep(r.start_line_no as nat) + ":"@ + dec_rep(r.end_line_no as nat)
        + " - "@ + r.distance_display@ + "\n"@ + r.context@
}

/// The list format: one block per result, blocks separated by blank lines.
pub open spec fn list_render_spec(rs: Seq<SearchResultWithContext>) -> Seq<char>
    decreases rs.len(),
{
    if rs.len() == 0 {
        Seq::empty()
    } else if rs.len() == 1 {
        list_block_spec(rs.first())
    } else {
        list_block_spec(rs.first()) + "\n\n"@ + list_render_spec(rs.drop_first())
    }
}

proof fn lemma_list_render_push(rs: Seq<SearchResultWithContext>, x: SearchResultWithContext)
    ensures
        rs.len() == 0 ==> list_render_spec(rs.push(x)) == list_block_spec(x),
        rs.len() > 0 ==> list_render_spec(rs.push(x)) == list_render_spec(rs) + "\n\n"@
            + list_block_spec(x),
    decreases rs.len(),
{
    if rs.len() == 0 {
        assert(rs.push(x).len() == 1);
        assert(rs.push(x).first() == x);
    } else {
        assert(rs.push(x).first() == rs.first());
        assert(rs.push(x).drop_first() =~= rs.drop_first().push(x));
        lemma_list_render_push(rs.drop_first(), x);
        if rs.len() == 1 {
            assert(list_render_spec(rs.push(x)) =~= list_render_spec(rs) + "\n\n"@
                + list_block_spec(x));
        } else {
            assert(list_render_spec(rs.push(x)) =~= list_render_spec(rs) + "\n\n"@
                + list_block_spec(x));
        }
    }
}

fn raw(results: &Vec<SearchResultWithContext>) -> (r: String)
    ensures
        r@ == raw_render_spec(results@),
{
    let mut out = String::new();
    let mut i: usize = 0;
    proof {
        assert(results@.take(0) =~= Seq::<SearchResultWithContext>::empty());
    }
    while i < results.len()
        invariant
            i <= results@.len(),
            out@ == raw_render_spec(results@.take(i as int)),
        decreases results@.len() - i,
    {
        out.append(results[i].path.as_str());
        out.append(":");
        let s = usize_to_string(results[i].start_line_no);
        out.append(s.as_str());
        out.append(":");
        let e = usize_to_string(results[i].end_line_no);
        out.append(e.as_str());
        out.append("\n");
        proof {
            lemma_raw_render_push(results@.take(i as int), results@[i as int]);
            assert(results@.take(i + 1) =~= results@.take(i as int).push(results@[i as int]));
            assert(out@ =~= raw_render_spec(results@.take(i + 1)));
        }
        i = i + 1;
    }
    proof {
        assert(results@.take(results@.len() as int) =~= results@);
    }
    out
}

fn list(results: &Vec<SearchResultWithContext>) -> (r: String)
    ensures
        r@ == list_render_spec(results@),
{
    let mut out = String::new();
    let mut i: usize = 0;
    proof {
        assert(results@.take(0) =~= Seq::<SearchResultWithContext>::empty());
    }
    while i < results.len()
        invariant
            i <= results@.len(),
            out@ == list_render_spec(results@.take(i as int)),
        decreases results@.len() - i,
    {
        if i > 0 {
            out.append("\n\n");
        }
        out.append(results[i].path.as_str());
        out.append(":");
        let s = usize_to_string(results[i].start_line_no);
        out.append(s.as_str());
        out.append(":");
        let e = usize_to_string(results[i].end_line_no);
        out.append(e.as_str());
        out.append(" - ");
        out.append(results[i].distance_display.as_str());
        out.append("\n");
        out.append(results[i].context.as_str());
        proof {
            lemma_list_render_push(results@.take(i as int), results@[i as int]);
            assert(results@.take(i + 1) =~= results@.take(i as int).push(results@[i as int]));
            assert(out@ =~= list_render_spec(results@.take(i + 1)));
        }
        i = i + 1;
    }
    proof {
        assert(results@.take(results@.len() as int) =~= results@);
    }
    out
}

/// Renders results in the given format. JSON needs a serialiser the core
/// does not hold, so that format alone is answered with `None` and rendered
/// by the caller.
pub fn format(results: &Vec<SearchResultWithContext>, fmt: OutputFormat) -> (r: Option<String>)
    ensures
        r is None <==> fmt == OutputFormat::Json,
        fmt == OutputFormat::Raw ==> r is Some && r->0@ == raw_render_spec(results@),
        fmt == OutputFormat::List ==> r is Some && r->0@ == list_render_spec(results@),
{
    match fmt {
        OutputFormat::Raw => Some(raw(results)),
        OutputFormat::List => Some(list(results)),
        OutputFormat::Json => None,
    }
}

/// Joining lines with single newlines.
pub open spec fn join_lines_spec(ls: Seq<Seq<char>>) -> Seq<char>
    decreases ls.len(),
{
    if ls.len() == 0 {
        Seq::empty()
    } else if ls.len() == 1 {
        ls.first()
    } else {
        ls.first() + "\n"@ + join_lines_spec(ls.drop_first())
    }
}

proof fn lemma_join_lines_push(ls: Seq<Seq<char>>, x: Seq<char>)
    ensures
        ls.len() == 0 ==> join_lines_spec(ls.push(x)) == x,
        ls.len() > 0 ==> join_lines_spec(ls.push(x)) == join_lines_spec(ls) + "\n"@ + x,
    decreases ls.len(),
{
    if ls.len() == 0 {
        assert(ls.push(x).len() == 1);
        assert(ls.push(x).first() == x);
    } else {
        assert(ls.push(x).first() == ls.first());
        assert(ls.push(x).drop_first() =~= ls.drop_first().push(x));
        lemma_join_lines_push(ls.drop_first(), x);
        if ls.len() == 1 {
            assert(join_lines_spec(ls.push(x)) =~= join_lines_spec(ls) + "\n"@ + x);
        } else {
            assert(join_lines_spec(ls.push(x)) =~= join_lines_spec(ls) + "\n"@ + x);
        }
    }
}

/// The views of a vector of lines.
pub open spec fn line_views(lines: Seq<String>) -> Seq<Seq<char>> {
    lines.map_values(|l: String| l@)
}

/// The quoted content for a result over 1-based inclusive line numbers:
/// the lines from `start_line_no` to `end_line_no`, clamped to the file,
/// joined with newlines. An empty or inverted range gives the empty string.
pub open spec fn context_spec(ls: Seq<Seq<char>>, start_line_no: int, end_line_no: int) -> Seq<
    char,
> {
    let s0 = if start_line_no > 0 {
        start_line_no - 1
    } else {
        0
    };
    let e0 = if end_line_no < ls.len() {
        end_line_no
    } else {
        ls.len() as int
    };
    if s0 >= e0 {
        Seq::empty()
    } else {
        join_lines_spec(ls.subrange(s0, e0))
    }
}

/// The quoted file content between two 1-based inclusive line numbers.
pub fn get_context(lines: &Vec<String>, start_line_no: usize, end_line_no: usize) -> (r: String)
    ensures
        r@ == context_spec(line_views(lines@), start_line_no as int, end_line_no as int),
{
    let s0: usize = if start_line_no > 0 {
        start_line_no - 1
    } else {
        0
    };
    let e0: usize = if end_line_no < lines.len() {
        end_line_no
    } else {
        lines.len()
    };
    let mut out = String::new();
    if s0 >= e0 {
        return out;
    }
    let ghost ls = line_views(lines@);
    let mut i: usize = s0;
    proof {
        assert(ls.subrange(s0 as int, s0 as int) =~= Seq::<Seq<char>>::empty());
    }
    while i < e0
        invariant
            s0 <= i <= e0 <= lines@.len(),
            ls == line_views(lines@),
            out@ == join_lines_spec(ls.subrange(s0 as int, i as int)),
        decreases e0 - i,
    {
        if i > s0 {
            out.append("\n");
        }
        out.append(lines[i].as_str());
        proof {
            lemma_join_lines_push(ls.subrange(s0 as int, i as int), ls[i as int]);
            assert(ls.subrange(s0 as int, i + 1) =~= ls.subrange(s0 as int, i as int).push(
                ls[i as int],
            ));
            assert(ls[i as int] == lines@[i as int]@);
            assert(out@ =~= join_lines_spec(ls.subrange(s0 as int, i + 1)));
        }
        i = i + 1;
    }
    out
}

} // verus!
