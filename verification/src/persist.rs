//! Batch persistence encoding. The store ingests batches as tab-separated
//! text rows (one `COPY ... FROM STDIN` payload per chunk of at most 5000
//! rows); each resource's record renders one row, and the encoders here
//! assemble whole batches and their chunks, byte-exactly by specification.

use vstd::prelude::*;

use crate::sync::Resource;

verus! {

/// How many rows one chunk of a batch write carries at most.
pub const COPY_CHUNK_ROWS: usize = 5000;

/// A record that renders as one tab-separated `COPY` text row.
pub trait CopyRow: Sized {
    /// When the record can be rendered (timestamps inside the renderer's
    /// range, decimals well formed).
    spec fn copy_renderable(&self) -> bool;

    /// The record's row text, tabs between fields and a newline at the end.
    spec fn spec_copy_row(&self) -> Seq<char>;

    /// Appends the record's row text.
    fn append_copy_row(&self, out: &mut String)
        requires
            self.copy_renderable(),
        ensures
            final(out)@ == old(out)@ + self.spec_copy_row(),
    ;

    /// Tests at run time whether the record can be rendered.
    fn is_renderable(&self) -> (b: bool)
        ensures
            b == self.copy_renderable(),
    ;
}

/// The concatenated row text of `rs`.
pub open spec fn spec_copy_batch<R: CopyRow>(rs: Seq<R>) -> Seq<char>
    decreases rs.len(),
{
    if rs.len() == 0 {
        Seq::empty()
    } else {
        spec_copy_batch(rs.drop_last()) + rs.last().spec_copy_row()
    }
}

/// Every record of `rs` can be rendered.
pub open spec fn all_renderable<R: CopyRow>(rs: Seq<R>) -> bool {
    forall|i: int| 0 <= i < rs.len() ==> (#[trigger] rs[i]).copy_renderable()
}

/// Renders the rows `rs[lo..hi]` as one `COPY` payload.
pub fn copy_batch<R: CopyRow>(rs: &Vec<R>, lo: usize, hi: usize) -> (out: String)
    requires
        lo <= hi <= rs@.len(),
        all_renderable(rs@),
    ensures
        out@ == spec_copy_batch(rs@.subrange(lo as int, hi as int)),
{
    let mut out = String::new();
    let mut i: usize = lo;
    proof {
        assert(rs@.subrange(lo as int, lo as int) =~= Seq::<R>::empty());
    }
    while i < hi
        invariant
            lo <= i <= hi <= rs@.len(),
            all_renderable(rs@),
            out@ == spec_copy_batch(rs@.subrange(lo as int, i as int)),
        decreases hi - i,
    {
        rs[i].append_copy_row(&mut out);
        proof {
            let done = rs@.subrange(lo as int, i + 1);
            assert(done.drop_last() =~= rs@.subrange(lo as int, i as int));
            assert(done.last() == rs@[i as int]);
        }
        i = i + 1;
    }
    out
}

/// The batch split at the chunk size: each element is the payload of up to
/// `COPY_CHUNK_ROWS` consecutive rows, in order.
pub open spec fn spec_copy_chunks<R: CopyRow>(rs: Seq<R>) -> Seq<Seq<char>>
    decreases rs.len(),
{
    if rs.len() == 0 {
        Seq::empty()
    } else if rs.len() <= COPY_CHUNK_ROWS {
        seq![spec_copy_batch(rs)]
    } else {
        seq![spec_copy_batch(rs.take(COPY_CHUNK_ROWS as int))] + spec_copy_chunks(
            rs.skip(COPY_CHUNK_ROWS as int),
        )
    }
}

/// A split point at a chunk boundary splits the chunk list.
proof fn lemma_copy_chunks_step<R: CopyRow>(rs: Seq<R>, lo: int)
    requires
        0 <= lo < rs.len(),
    ensures
        rs.skip(lo).len() <= COPY_CHUNK_ROWS ==> spec_copy_chunks(rs.skip(lo)) == seq![
            spec_copy_batch(rs.subrange(lo, rs.len() as int)),
        ],
        rs.skip(lo).len() > COPY_CHUNK_ROWS ==> spec_copy_chunks(rs.skip(lo)) == seq![
            spec_copy_batch(rs.subrange(lo, lo + COPY_CHUNK_ROWS)),
        ] + spec_copy_chunks(rs.skip(lo + COPY_CHUNK_ROWS)),
{
    let t = rs.skip(lo);
    if t.len() <= COPY_CHUNK_ROWS {
        assert(t =~= rs.subrange(lo, rs.len() as int));
    } else {
        assert(t.take(COPY_CHUNK_ROWS as int) =~= rs.subrange(lo, lo + COPY_CHUNK_ROWS));
        assert(t.skip(COPY_CHUNK_ROWS as int) =~= rs.skip(lo + COPY_CHUNK_ROWS));
    }
}

/// Renders a whole batch as its ordered chunks of at most `COPY_CHUNK_ROWS`
/// rows each.
pub fn copy_chunks<R: CopyRow>(rs: &Vec<R>) -> (chunks: Vec<String>)
    requires
        all_renderable(rs@),
    ensures
        chunks@.map_values(|s: String| s@) == spec_copy_chunks(rs@),
{
    let mut chunks: Vec<String> = Vec::new();
    let n = rs.len();
    let mut lo: usize = 0;
    proof {
        assert(chunks@.map_values(|s: String| s@) =~= Seq::<Seq<char>>::empty());
        assert(rs@.skip(0) =~= rs@);
    }
    while lo < n
        invariant
            lo <= n == rs@.len(),
            all_renderable(rs@),
            chunks@.map_values(|s: String| s@) + spec_copy_chunks(rs@.skip(lo as int))
                == spec_copy_chunks(rs@),
        decreases n - lo,
    {
        let hi: usize = if n - lo > COPY_CHUNK_ROWS {
            lo + COPY_CHUNK_ROWS
        } else {
            n
        };
        let ghost chunks_before = chunks@;
        let chunk = copy_batch(rs, lo, hi);
        chunks.push(chunk);
        proof {
            lemma_copy_chunks_step(rs@, lo as int);
            assert(chunks@.map_values(|s: String| s@) =~= chunks_before.map_values(
                |s: String| s@,
            ).push(spec_copy_batch(rs@.subrange(lo as int, hi as int))));
            if hi < n {
                assert(chunks@.map_values(|s: String| s@) + spec_copy_chunks(
                    rs@.skip(hi as int),
                ) =~= spec_copy_chunks(rs@));
            } else {
                assert(rs@.skip(n as int) =~= Seq::<R>::empty());
                assert(chunks@.map_values(|s: String| s@) + spec_copy_chunks(
                    rs@.skip(n as int),
                ) =~= spec_copy_chunks(rs@));
            }
        }
        lo = hi;
    }
    proof {
        assert(rs@.skip(n as int) =~= Seq::<R>::empty());
        assert(chunks@.map_values(|s: String| s@) =~= spec_copy_chunks(rs@));
    }
    chunks
}

/// The table that stores a resource's rows.
pub open spec fn spec_table_name(r: Resource) -> Seq<char> {
    match r {
        Resource::PriceDepth => "depth_price_history"@,
        Resource::Earnings => "earnings_history"@,
        Resource::Swaps => "swap_history"@,
        Resource::RunePool => "rune_pool_history"@,
    }
}

/// The table that stores a resource's rows.
pub fn table_name(r: Resource) -> (t: &'static str)
    ensures
        t@ == spec_table_name(r),
{
    match r {
        Resource::PriceDepth => "depth_price_history",
        Resource::Earnings => "earnings_history",
        Resource::Swaps => "swap_history",
        Resource::RunePool => "rune_pool_history",
    }
}

/// The query text that reads a resource's most recently persisted
/// `start_time` (the last-sync resolver's one statement).
pub open spec fn spec_last_sync_query(r: Resource) -> Seq<char> {
    "SELECT start_time FROM "@ + spec_table_name(r) + " ORDER BY start_time DESC LIMIT 1"@
}

/// The last-sync resolver's query for a resource.
pub fn last_sync_query(r: Resource) -> (q: String)
    ensures
        q@ == spec_last_sync_query(r),
{
    let mut q = String::new();
    q.append("SELECT start_time FROM ");
    q.append(table_name(r));
    q.append(" ORDER BY start_time DESC LIMIT 1");
    proof {
        assert(q@ =~= spec_last_sync_query(r));
    }
    q
}

} // verus!
