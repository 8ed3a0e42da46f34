use vstd::prelude::*;
use vstd::string::*;

verus! {

/// Path of the collection endpoint under the server's base URL.
pub const CLICKHOUSE_EVENTS_URL_PATH: &'static str = "/api/events";

/// The full URL of the collection endpoint.
pub fn clickhouse_events_url(server_url: &str) -> (r: String)
    ensures
        r@ == server_url@ + CLICKHOUSE_EVENTS_URL_PATH@,
{
    String::from_str(server_url).concat(CLICKHOUSE_EVENTS_URL_PATH)
}

/// The log text for a run of serialized events: each line followed by a
/// newline, in order.
pub open spec fn ndjson(lines: Seq<Seq<u8>>) -> Seq<u8>
    decreases lines.len(),
{
    if lines.len() == 0 {
        Seq::empty()
    } else {
        ndjson(lines.drop_last()) + lines.last().push(10u8)
    }
}

pub open spec fn line_views(lines: Seq<Vec<u8>>) -> Seq<Seq<u8>> {
    lines.map_values(|l: Vec<u8>| l@)
}

/// Frame serialized events as newline-delimited records for the local log.
pub fn frame_log_lines(lines: &Vec<Vec<u8>>) -> (r: Vec<u8>)
    requires
        ndjson(line_views(lines@)).len() <= usize::MAX,
    ensures
        r@ == ndjson(line_views(lines@)),
{
    let mut out: Vec<u8> = Vec::new();
    let mut i: usize = 0;
    while i < lines.len()
        invariant
            i <= lines.len(),
            out@ == ndjson(line_views(lines@.take(i as int))),
            ndjson(line_views(lines@)).len() <= usize::MAX,
        decreases lines.len() - i,
    {
        proof {
            lemma_ndjson_prefix_len(lines@, i as int + 1);
            assert(line_views(lines@.take(i as int + 1)).drop_last() =~= line_views(
                lines@.take(i as int),
            ));
        }
        let line = &lines[i];
        let mut j: usize = 0;
        while j < line.len()
            invariant
                i < lines.len(),
                line == lines@[i as int],
                j <= line.len(),
                out@ == ndjson(line_views(lines@.take(i as int))) + line@.take(j as int),
                ndjson(line_views(lines@.take(i as int))).len() + line@.len() + 1 <= usize::MAX,
            decreases line.len() - j,
        {
            out.push(line[j]);
            proof {
                assert(line@.take(j as int).push(line@[j as int]) =~= line@.take(j as int + 1));
            }
            j = j + 1;
        }
        out.push(10u8);
        proof {
            assert(line@.take(j as int) =~= line@);
        }
        i = i + 1;
    }
    proof {
        assert(lines@.take(i as int) =~= lines@);
    }
    out
}

/// The framing of a prefix is no longer than the framing of the whole.
proof fn lemma_ndjson_prefix_len(lines: Seq<Vec<u8>>, k: int)
    requires
        0 <= k <= lines.len(),
    ensures
        ndjson(line_views(lines.take(k))).len() <= ndjson(line_views(lines)).len(),
        k > 0 ==> ndjson(line_views(lines.take(k))).len() == ndjson(
            line_views(lines.take(k - 1)),
        ).len() + lines[k - 1]@.len() + 1,
    decreases lines.len() - k,
{
    if k > 0 {
        assert(line_views(lines.take(k)).drop_last() =~= line_views(lines.take(k - 1)));
    }
    if k < lines.len() {
        lemma_ndjson_prefix_len(lines, k + 1);
        assert(line_views(lines.take(k + 1)).drop_last() =~= line_views(lines.take(k)));
    } else {
        assert(lines.take(k) =~= lines);
    }
}

} // verus!
