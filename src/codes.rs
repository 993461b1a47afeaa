use vstd::prelude::*;

verus! {

/// A required pointer argument (model, input array or output slot) is null.
pub const ERR_INVALID_POINTERS: i32 = -1;

/// The input text array holds no element.
pub const ERR_EMPTY_INPUT: i32 = -2;

/// A text buffer or the model string is not valid UTF-8, or a text buffer is
/// null or of length zero.
pub const ERR_INVALID_UTF8: i32 = -3;

/// The method code names no registered provider.
pub const ERR_INVALID_METHOD: i32 = -4;

/// The model is not on the resolved provider's allow-list.
pub const ERR_MODEL_NOT_ALLOWED: i32 = -5;

/// The provider failed, or returned no usable data.
pub const ERR_EMBEDDING_FAILED: i32 = -6;

/// Returned by the entry point when the output slot was written.
pub const OK: i32 = 0;

} // verus!
