use vstd::prelude::*;
use crate::local::{model_for_id, model_id_for_name, FastEmbedder};
use crate::text::str_equals;

verus! {

/// The providers compiled into this library, one per method code.
#[derive(Debug, Clone, Copy, PartialEq, Eq, Structural)]
pub enum EmbedMethod {
    /// The in-process model provider, method code 0.
    FastEmbed,
    /// The remote service provider, method code 1.
    Grpc,
}

impl EmbedMethod {
    /// The method code that crosses the boundary.
    pub open spec fn spec_code(self) -> i32 {
        match self {
            EmbedMethod::FastEmbed => 0i32,
            EmbedMethod::Grpc => 1i32,
        }
    }

    pub fn code(&self) -> (r: i32)
        ensures
            r == self.spec_code(),
    {
        match self {
            EmbedMethod::FastEmbed => 0,
            EmbedMethod::Grpc => 1,
        }
    }
}

/// The registered providers, in registration order.
pub open spec fn registered() -> Seq<EmbedMethod> {
    seq![EmbedMethod::FastEmbed, EmbedMethod::Grpc]
}

/// The provider that a method code selects.
pub open spec fn method_for_code(code: i32) -> Option<EmbedMethod> {
    if code == 0 {
        Some(EmbedMethod::FastEmbed)
    } else if code == 1 {
        Some(EmbedMethod::Grpc)
    } else {
        None
    }
}

/// The method code of a human-readable method name.
pub open spec fn method_code_for_name(name: Seq<char>) -> Option<i32> {
    if name == "local"@ {
        Some(0i32)
    } else if name == "remote"@ {
        Some(1i32)
    } else {
        None
    }
}

/// The identifier under which the remote provider knows every model: the
/// service selects its model by name alone.
pub const REMOTE_MODEL_ID: i32 = 0;

/// The model identifier that a provider gives a model name, if the name is
/// on its allow-list. The remote provider allows every non-empty name.
pub open spec fn model_id_for(method: EmbedMethod, model: Seq<char>) -> Option<i32> {
    match method {
        EmbedMethod::FastEmbed => model_id_for_name(model),
        EmbedMethod::Grpc => if model.len() > 0 {
            Some(REMOTE_MODEL_ID)
        } else {
            None
        },
    }
}

/// The model-identifier check of a method code and a model name.
pub open spec fn validated_model(method_id: i32, model: Seq<char>) -> Option<i32> {
    match method_for_code(method_id) {
        Some(m) => model_id_for(m, model),
        None => None,
    }
}

/// The remote provider: delegates to an embedding service over RPC.
pub struct GrpcEmbedder;

impl GrpcEmbedder {
    /// The identifier of `model` for the remote provider.
    pub fn get_model_id(model: &str) -> (r: Option<i32>)
        ensures
            r == model_id_for(EmbedMethod::Grpc, model@),
    {
        if model.is_empty() {
            None
        } else {
            proof {
                vstd::utf8::encode_utf8_decode_utf8(model@);
            }
            Some(REMOTE_MODEL_ID)
        }
    }
}

impl EmbedMethod {
    /// The identifier of `model` on this provider's allow-list, if it is there.
    pub fn get_model_id(&self, model: &str) -> (r: Option<i32>)
        ensures
            r == model_id_for(*self, model@),
    {
        match self {
            EmbedMethod::FastEmbed => FastEmbedder::get_model_id(model),
            EmbedMethod::Grpc => GrpcEmbedder::get_model_id(model),
        }
    }

    /// Whether `model_id` is an identifier that this provider gives out.
    pub fn supports_model_id(&self, model_id: i32) -> (r: bool)
        ensures
            r == (match *self {
                EmbedMethod::FastEmbed => model_for_id(model_id) is Some,
                EmbedMethod::Grpc => model_id == REMOTE_MODEL_ID,
            }),
    {
        match self {
            EmbedMethod::FastEmbed => FastEmbedder::supports_model_id(model_id),
            EmbedMethod::Grpc => model_id == REMOTE_MODEL_ID,
        }
    }

    /// Whether `model` is on this provider's allow-list.
    pub fn is_model_allowed(&self, model: &str) -> (r: bool)
        ensures
            r == (model_id_for(*self, model@) is Some),
    {
        self.get_model_id(model).is_some()
    }
}

/// The table of compiled-in providers.
pub struct EmbedderRegistry {}

impl EmbedderRegistry {
    /// The registered providers, in order.
    pub fn embedders() -> (r: Vec<EmbedMethod>)
        ensures
            r@ == registered(),
    {
        let r = vec![EmbedMethod::FastEmbed, EmbedMethod::Grpc];
        assert(r@ =~= registered());
        r
    }

    /// The first registered provider whose code is `method`.
    pub fn get_embedder_by_method_id(method: i32) -> (r: Option<EmbedMethod>)
        ensures
            r == method_for_code(method),
    {
        let all = Self::embedders();
        let mut i: usize = 0;
        while i < all.len()
            invariant
                all@ == registered(),
                i <= all@.len(),
                forall|k: int| 0 <= k < i ==> all@[k].spec_code() != method,
            decreases all@.len() - i,
        {
            if all[i].code() == method {
                assert(i == 0 || i == 1);
                return Some(all[i]);
            }
            i = i + 1;
        }
        assert(all@[0].spec_code() != method && all@[1].spec_code() != method);
        None
    }

    /// The method code of a method name ("local" or "remote").
    pub fn validate_method(method: &str) -> (r: Option<i32>)
        ensures
            r == method_code_for_name(method@),
    {
        if str_equals(method, "local") {
            Some(EmbedMethod::FastEmbed.code())
        } else if str_equals(method, "remote") {
            Some(EmbedMethod::Grpc.code())
        } else {
            None
        }
    }

    /// The model identifier that the provider of `method_id` gives `model`.
    pub fn validate_model(method_id: i32, model: &str) -> (r: Option<i32>)
        ensures
            r == validated_model(method_id, model@),
    {
        let embedder = match Self::get_embedder_by_method_id(method_id) {
            Some(e) => e,
            None => return None,
        };
        embedder.get_model_id(model)
    }
}

} // verus!
