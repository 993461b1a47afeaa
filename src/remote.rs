use vstd::prelude::*;

verus! {

/// Address of the embedding service.
pub const SERVICE_ADDRESS: &'static str = "http://127.0.0.1:50051";

/// Interval between HTTP/2 keep-alive pings, in seconds.
pub const KEEP_ALIVE_INTERVAL_SECS: u64 = 75;

/// How long a keep-alive ping may go unanswered, in seconds.
pub const KEEP_ALIVE_TIMEOUT_SECS: u64 = 20;

/// How long establishing the connection may take, in seconds.
pub const CONNECT_TIMEOUT_SECS: u64 = 5;

/// Wire value of the truncation direction sent with every request: the
/// first value of the service's direction enumeration.
pub const TRUNCATION_DIRECTION: i32 = 0;

/// The one batch request of the remote protocol.
#[derive(Debug)]
pub struct EmbedBatchRequest {
    pub inputs: Vec<String>,
    pub truncate: bool,
    pub normalize: bool,
    pub truncation_direction: i32,
    pub prompt_name: Option<String>,
    pub dimensions: Option<u32>,
    pub model: String,
}

/// Whether `req` carries `texts` for `model` with the fixed options: truncate
/// and normalize on, the fixed direction, no prompt name, no dimension.
pub open spec fn request_for(req: EmbedBatchRequest, model: Seq<char>, texts: Seq<String>) -> bool {
    &&& req.inputs@ == texts
    &&& req.truncate
    &&& req.normalize
    &&& req.truncation_direction == TRUNCATION_DIRECTION
    &&& req.prompt_name is None
    &&& req.dimensions is None
    &&& req.model@ == model
}

/// Builds the request for one call of the remote provider.
pub fn build_request(model: &str, texts: Vec<String>) -> (r: EmbedBatchRequest)
    ensures
        request_for(r, model@, texts@),
{
    EmbedBatchRequest {
        inputs: texts,
        truncate: true,
        normalize: true,
        truncation_direction: TRUNCATION_DIRECTION,
        prompt_name: None,
        dimensions: None,
        model: model.to_owned(),
    }
}

/// The views of a sequence of rows.
pub open spec fn row_views<T>(rows: Seq<Vec<T>>) -> Seq<Seq<T>> {
    rows.map_values(|r: Vec<T>| r@)
}

/// The rows one after another.
pub open spec fn concat_rows<T>(rows: Seq<Seq<T>>) -> Seq<T>
    decreases rows.len(),
{
    if rows.len() == 0 {
        Seq::empty()
    } else {
        concat_rows(rows.drop_last()) + rows.last()
    }
}

/// Whether there is at least one row, the first is non-empty, and all have
/// its length.
pub open spec fn rows_uniform<T>(rows: Seq<Seq<T>>) -> bool {
    &&& rows.len() > 0
    &&& rows[0].len() > 0
    &&& forall|i: int| 0 <= i < rows.len() ==> #[trigger] rows[i].len() == rows[0].len()
}

proof fn lemma_concat_len<T>(rows: Seq<Seq<T>>, dim: nat)
    requires
        forall|i: int| 0 <= i < rows.len() ==> #[trigger] rows[i].len() == dim,
    ensures
        concat_rows(rows).len() == rows.len() * dim,
    decreases rows.len(),
{
    if rows.len() > 0 {
        let init = rows.drop_last();
        assert forall|i: int| 0 <= i < init.len() implies #[trigger] init[i].len() == dim by {
            assert(init[i] == rows[i]);
        }
        lemma_concat_len(init, dim);
        assert(rows.last() == rows[rows.len() - 1]);
        assert(rows.len() * dim == (rows.len() - 1) * dim + dim) by (nonlinear_arith);
    }
}

/// Flattens the vectors of a response into one buffer, with their count and
/// dimension; `None` when there is no vector, the first is empty, the
/// dimensions differ, or the total does not fit in `usize`.
pub fn flatten_rows<T>(rows: Vec<Vec<T>>) -> (r: Option<(Vec<T>, usize, usize)>)
    ensures
        r is Some <==> (rows_uniform(row_views(rows@)) && rows@.len() * rows@[0]@.len()
            <= usize::MAX),
        r matches Some((flat, n, dim)) ==> {
            &&& n == rows@.len()
            &&& dim == rows@[0]@.len()
            &&& flat@ == concat_rows(row_views(rows@))
            &&& flat@.len() == n * dim
        },
{
    let ghost orig = rows@;
    let n = rows.len();
    if n == 0 {
        return None;
    }
    let dim = rows[0].len();
    if dim == 0 {
        return None;
    }
    let mut i: usize = 0;
    while i < n
        invariant
            rows@ == orig,
            n == orig.len(),
            dim == orig[0]@.len(),
            i <= n,
            forall|k: int| 0 <= k < i ==> #[trigger] orig[k]@.len() == dim,
        decreases n - i,
    {
        if rows[i].len() != dim {
            assert(row_views(orig)[i as int].len() != row_views(orig)[0].len());
            return None;
        }
        i = i + 1;
    }
    assert forall|k: int| 0 <= k < n implies #[trigger] row_views(orig)[k].len() == row_views(
        orig,
    )[0].len() by {
        assert(orig[k]@.len() == dim);
    }
    let total = match n.checked_mul(dim) {
        Some(t) => t,
        None => return None,
    };
    let mut rest = rows;
    let mut flat: Vec<T> = Vec::with_capacity(total);
    let mut j: usize = 0;
    while j < n
        invariant
            n == orig.len(),
            j <= n,
            rest@ == orig.subrange(j as int, n as int),
            flat@ == concat_rows(row_views(orig.take(j as int))),
        decreases n - j,
    {
        let mut row = rest.remove(0);
        assert(row == orig[j as int]);
        flat.append(&mut row);
        proof {
            let next = row_views(orig.take(j + 1));
            assert(next.drop_last() =~= row_views(orig.take(j as int)));
            assert(next.last() == orig[j as int]@);
        }
        j = j + 1;
    }
    proof {
        assert(orig.take(n as int) =~= orig);
        lemma_concat_len(row_views(orig), dim as nat);
    }
    Some((flat, n, dim))
}

} // verus!
