use vstd::prelude::*;
use vstd::utf8::{decode_utf8, valid_utf8};
use crate::codes::{
    ERR_EMBEDDING_FAILED, ERR_EMPTY_INPUT, ERR_INVALID_METHOD, ERR_INVALID_POINTERS,
    ERR_INVALID_UTF8, ERR_MODEL_NOT_ALLOWED, OK,
};
use crate::registry::{method_for_code, model_id_for, EmbedderRegistry, EmbedMethod};
use crate::text::decode_bytes;
use crate::remote::{concat_rows, flatten_rows, row_views, rows_uniform};

verus! {

/// One borrowed text buffer as the caller handed it: `None` for a null
/// pointer, else its bytes.
pub type RawText = Option<Vec<u8>>;

/// Whether a text buffer is non-null, non-empty and valid UTF-8.
pub open spec fn text_valid(t: RawText) -> bool {
    match t {
        Some(b) => b@.len() > 0 && valid_utf8(b@),
        None => false,
    }
}

/// Whether every text buffer is usable.
pub open spec fn texts_valid(inputs: Seq<RawText>) -> bool {
    forall|i: int| 0 <= i < inputs.len() ==> #[trigger] text_valid(inputs[i])
}

/// The characters of a text buffer.
pub open spec fn text_chars(t: RawText) -> Seq<char> {
    match t {
        Some(b) => decode_utf8(b@),
        None => Seq::empty(),
    }
}

/// The code that the entry point gives a call before any provider runs, in
/// the order of the checks: 0 when every check passes.
pub open spec fn call_code(
    method: i32,
    model: Option<Vec<u8>>,
    inputs: Option<Vec<RawText>>,
    out_present: bool,
) -> i32 {
    match (model, inputs) {
        (Some(m), Some(ins)) if out_present => {
            if !valid_utf8(m@) {
                ERR_INVALID_UTF8
            } else if ins@.len() == 0 {
                ERR_EMPTY_INPUT
            } else if !texts_valid(ins@) {
                ERR_INVALID_UTF8
            } else {
                match method_for_code(method) {
                    None => ERR_INVALID_METHOD,
                    Some(p) => if model_id_for(p, decode_utf8(m@)) is Some {
                        OK
                    } else {
                        ERR_MODEL_NOT_ALLOWED
                    },
                }
            }
        },
        _ => ERR_INVALID_POINTERS,
    }
}

/// A validated request, ready for its provider.
#[derive(Debug)]
pub struct EmbedCall {
    pub method: EmbedMethod,
    pub model: String,
    pub model_id: i32,
    pub texts: Vec<String>,
}

/// Whether `call` is the request that the arguments describe.
pub open spec fn call_describes(
    call: EmbedCall,
    method: i32,
    model: Seq<u8>,
    inputs: Seq<RawText>,
) -> bool {
    &&& method_for_code(method) == Some(call.method)
    &&& call.model@ == decode_utf8(model)
    &&& model_id_for(call.method, call.model@) == Some(call.model_id)
    &&& call.texts@.len() == inputs.len()
    &&& forall|i: int| 0 <= i < inputs.len() ==> #[trigger] call.texts@[i]@ == text_chars(inputs[i])
}

/// Turns the caller's arguments into a request, or the code of the first
/// check that fails. `out_present` says whether the output slot is non-null.
pub fn prepare_call(
    method: i32,
    model: Option<Vec<u8>>,
    inputs: Option<Vec<RawText>>,
    out_present: bool,
) -> (r: Result<EmbedCall, i32>)
    ensures
        r is Err <==> call_code(method, model, inputs, out_present) != 0,
        r matches Err(c) ==> c == call_code(method, model, inputs, out_present),
        r matches Ok(call) ==> call_describes(
            call,
            method,
            model->0@,
            inputs->0@,
        ),
{
    let (model_raw, mut rest) = match (model, inputs) {
        (Some(m), Some(ins)) if out_present => (m, ins),
        _ => return Err(ERR_INVALID_POINTERS),
    };
    let ghost model_bytes = model_raw@;
    let ghost all = rest@;
    let model_str = match decode_bytes(model_raw) {
        Some(s) => s,
        None => return Err(ERR_INVALID_UTF8),
    };
    let n = rest.len();
    let mut texts: Vec<String> = Vec::new();
    let mut i: usize = 0;
    while i < n
        invariant
            out_present,
            model matches Some(m) && m@ == model_bytes,
            valid_utf8(model_bytes),
            inputs matches Some(v) && v@ == all,
            n == all.len(),
            i <= n,
            rest@ == all.subrange(i as int, n as int),
            texts@.len() == i,
            forall|k: int| 0 <= k < i ==> #[trigger] text_valid(all[k]),
            forall|k: int| 0 <= k < i ==> #[trigger] texts@[k]@ == text_chars(all[k]),
        decreases n - i,
    {
        let item = rest.remove(0);
        assert(item == all[i as int]);
        let bytes = match item {
            Some(b) => b,
            None => {
                assert(!text_valid(all[i as int]));
                return Err(ERR_INVALID_UTF8);
            },
        };
        if bytes.len() == 0 {
            assert(!text_valid(all[i as int]));
            return Err(ERR_INVALID_UTF8);
        }
        let text = match decode_bytes(bytes) {
            Some(t) => t,
            None => {
                assert(!text_valid(all[i as int]));
                return Err(ERR_INVALID_UTF8);
            },
        };
        texts.push(text);
        i = i + 1;
    }
    if n == 0 {
        return Err(ERR_EMPTY_INPUT);
    }
    assert(texts_valid(all));
    let embedder = match EmbedderRegistry::get_embedder_by_method_id(method) {
        Some(e) => e,
        None => return Err(ERR_INVALID_METHOD),
    };
    let model_id = match embedder.get_model_id(model_str.as_str()) {
        Some(id) => id,
        None => return Err(ERR_MODEL_NOT_ALLOWED),
    };
    Ok(EmbedCall { method: embedder, model: model_str, model_id, texts })
}

/// A call with non-null pointers, a UTF-8 model name, a non-empty array of
/// usable texts, a registered method and an allowed model passes every check;
/// a provider result that is then accepted has one vector per text, a
/// positive dimension and exactly `n_vectors * dim` values.
pub proof fn lemma_valid_call_accepted(
    method: i32,
    model: Vec<u8>,
    inputs: Vec<RawText>,
    n_inputs: nat,
    data_len: nat,
    n_vectors: nat,
    dim: nat,
)
    requires
        valid_utf8(model@),
        inputs@.len() > 0,
        texts_valid(inputs@),
        method_for_code(method) matches Some(p) && model_id_for(p, decode_utf8(model@)) is Some,
    ensures
        call_code(method, Some(model), Some(inputs), true) == 0,
        usable_outcome(n_inputs, data_len, n_vectors, dim) ==> n_vectors == n_inputs && dim > 0
            && data_len == n_vectors * dim,
{
}

/// An embedding batch owned by this library: a flat buffer of `n_vectors`
/// rows of `dim` values each, row after row.
#[derive(Debug)]
pub struct Batch<T> {
    pub data: Vec<T>,
    pub n_vectors: usize,
    pub dim: usize,
}

impl<T> Batch<T> {
    /// The shape invariant: at least one row, rows of positive width, and
    /// exactly `n_vectors * dim` values.
    pub open spec fn wf(&self) -> bool {
        &&& self.n_vectors > 0
        &&& self.dim > 0
        &&& self.data@.len() == self.n_vectors * self.dim
        &&& self.n_vectors * self.dim <= usize::MAX
    }

    /// The output slot through which the caller receives this batch.
    pub fn slot(&self) -> (r: BatchSlot)
        ensures
            r == (BatchSlot { data_present: true, n_vectors: self.n_vectors, dim: self.dim }),
    {
        BatchSlot { data_present: true, n_vectors: self.n_vectors, dim: self.dim }
    }
}

/// Whether a provider's result can be handed out for `n_inputs` texts: one
/// row per text, rows of positive width, and a buffer of exactly that shape.
pub open spec fn usable_outcome(n_inputs: nat, data_len: nat, n_vectors: nat, dim: nat) -> bool {
    &&& n_vectors > 0
    &&& n_vectors == n_inputs
    &&& dim > 0
    &&& data_len == n_vectors * dim
}

/// Checks what a provider returned for `n_inputs` texts (`None` when it
/// failed) and makes it a batch, or gives the embedding-failed code.
pub fn finish_embedding<T>(n_inputs: usize, outcome: Option<(Vec<T>, usize, usize)>) -> (r: Result<
    Batch<T>,
    i32,
>)
    ensures
        r is Ok <==> (outcome matches Some((d, n, k)) && usable_outcome(
            n_inputs as nat,
            d@.len(),
            n as nat,
            k as nat,
        )),
        r matches Err(c) ==> c == ERR_EMBEDDING_FAILED,
        r matches Ok(b) ==> b.wf() && b.n_vectors == n_inputs && (outcome matches Some((d, n, k))
            && b.data@ == d@ && b.n_vectors == n && b.dim == k),
{
    let (data, n_vectors, dim) = match outcome {
        Some(o) => o,
        None => return Err(ERR_EMBEDDING_FAILED),
    };
    let len = data.len();
    if n_vectors == 0 || n_vectors != n_inputs || dim == 0 {
        return Err(ERR_EMBEDDING_FAILED);
    }
    match n_vectors.checked_mul(dim) {
        Some(total) => {
            if len != total {
                return Err(ERR_EMBEDDING_FAILED);
            }
        },
        None => {
            return Err(ERR_EMBEDDING_FAILED);
        },
    }
    Ok(Batch { data, n_vectors, dim })
}

/// What the caller's output slot holds: whether its buffer pointer is
/// non-null, and the two shape fields.
#[derive(Debug, Clone, Copy, PartialEq, Eq, Structural)]
pub struct BatchSlot {
    pub data_present: bool,
    pub n_vectors: usize,
    pub dim: usize,
}

impl BatchSlot {
    /// A slot with a null buffer and both shape fields zero.
    pub open spec fn zeroed() -> BatchSlot {
        BatchSlot { data_present: false, n_vectors: 0, dim: 0 }
    }

    /// Whether releasing this slot drops a buffer.
    pub open spec fn owns_buffer(self) -> bool {
        &&& self.data_present
        &&& self.n_vectors > 0
        &&& self.dim > 0
        &&& self.n_vectors * self.dim <= usize::MAX
    }

    /// The number of values that releasing this slot drops, if any.
    pub open spec fn release_count(self) -> Option<usize> {
        if self.owns_buffer() {
            Some((self.n_vectors * self.dim) as usize)
        } else {
            None
        }
    }

    /// The slot after a release.
    pub open spec fn after_release(self) -> BatchSlot {
        if self.owns_buffer() {
            BatchSlot::zeroed()
        } else {
            self
        }
    }

    /// A zeroed slot.
    pub fn empty() -> (r: BatchSlot)
        ensures
            r == BatchSlot::zeroed(),
    {
        BatchSlot { data_present: false, n_vectors: 0, dim: 0 }
    }

    /// The release protocol: when the slot owns a buffer, gives the number of
    /// values to drop and zeroes the slot; otherwise changes nothing.
    pub fn release(&mut self) -> (r: Option<usize>)
        ensures
            r == old(self).release_count(),
            *final(self) == old(self).after_release(),
    {
        if self.data_present && self.n_vectors > 0 && self.dim > 0 {
            match self.n_vectors.checked_mul(self.dim) {
                Some(total) => {
                    self.data_present = false;
                    self.n_vectors = 0;
                    self.dim = 0;
                    Some(total)
                },
                None => None,
            }
        } else {
            None
        }
    }
}

/// Releasing the slot of a batch drops exactly its buffer and zeroes the
/// slot; releasing it again drops nothing and leaves it zeroed.
pub proof fn lemma_release_idempotent<T>(b: Batch<T>)
    requires
        b.wf(),
    ensures
        b.slot_view().release_count() == Some(b.data@.len() as usize),
        b.slot_view().after_release() == BatchSlot::zeroed(),
        BatchSlot::zeroed().release_count() is None,
        BatchSlot::zeroed().after_release() == BatchSlot::zeroed(),
{
}

impl<T> Batch<T> {
    /// The slot that `slot` returns.
    pub open spec fn slot_view(&self) -> BatchSlot {
        BatchSlot { data_present: true, n_vectors: self.n_vectors, dim: self.dim }
    }
}

/// Whether a provider's rows make a batch for `n_inputs` texts.
pub open spec fn usable_rows<T>(n_inputs: usize, rows: Seq<Vec<T>>) -> bool {
    &&& rows_uniform(row_views(rows))
    &&& rows.len() == n_inputs
    &&& rows.len() * rows[0]@.len() <= usize::MAX
}

/// Flattens what a provider returned for `n_inputs` texts (`None` when it
/// failed) into a batch, or gives the embedding-failed code.
pub fn batch_from_rows<T>(n_inputs: usize, rows: Option<Vec<Vec<T>>>) -> (r: Result<Batch<T>, i32>)
    ensures
        r is Ok <==> (rows matches Some(v) && usable_rows(n_inputs, v@)),
        r matches Err(c) ==> c == ERR_EMBEDDING_FAILED,
        r matches Ok(b) ==> b.wf() && b.n_vectors == n_inputs && (rows matches Some(v) && b.dim
            == v@[0]@.len() && b.data@ == concat_rows(row_views(v@))),
{
    let rows = match rows {
        Some(v) => v,
        None => return Err(ERR_EMBEDDING_FAILED),
    };
    match flatten_rows(rows) {
        Some(o) => finish_embedding(n_inputs, Some(o)),
        None => Err(ERR_EMBEDDING_FAILED),
    }
}

} // verus!
