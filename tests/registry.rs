use pg_gem_core::codes::{
    ERR_EMBEDDING_FAILED, ERR_EMPTY_INPUT, ERR_INVALID_METHOD, ERR_INVALID_POINTERS,
    ERR_INVALID_UTF8, ERR_MODEL_NOT_ALLOWED, OK,
};
use pg_gem_core::local::{FastEmbedder, LocalModel};
use pg_gem_core::registry::{EmbedMethod, EmbedderRegistry, GrpcEmbedder, REMOTE_MODEL_ID};
use pg_gem_core::text::str_equals;

#[test]
fn error_codes_are_stable() {
    assert_eq!(OK, 0);
    assert_eq!(ERR_INVALID_POINTERS, -1);
    assert_eq!(ERR_EMPTY_INPUT, -2);
    assert_eq!(ERR_INVALID_UTF8, -3);
    assert_eq!(ERR_INVALID_METHOD, -4);
    assert_eq!(ERR_MODEL_NOT_ALLOWED, -5);
    assert_eq!(ERR_EMBEDDING_FAILED, -6);
}

#[test]
fn method_codes() {
    assert_eq!(EmbedMethod::FastEmbed.code(), 0);
    assert_eq!(EmbedMethod::Grpc.code(), 1);
}

#[test]
fn resolve_registered_methods() {
    assert_eq!(EmbedderRegistry::get_embedder_by_method_id(0), Some(EmbedMethod::FastEmbed));
    assert_eq!(EmbedderRegistry::get_embedder_by_method_id(1), Some(EmbedMethod::Grpc));
}

#[test]
fn resolve_unregistered_method() {
    assert_eq!(EmbedderRegistry::get_embedder_by_method_id(99), None);
    assert_eq!(EmbedderRegistry::get_embedder_by_method_id(-1), None);
    assert_eq!(EmbedderRegistry::get_embedder_by_method_id(2), None);
}

#[test]
fn registry_lists_providers_in_order() {
    assert_eq!(EmbedderRegistry::embedders(), vec![EmbedMethod::FastEmbed, EmbedMethod::Grpc]);
}

#[test]
fn validate_method_names() {
    assert_eq!(EmbedderRegistry::validate_method("local"), Some(0));
    assert_eq!(EmbedderRegistry::validate_method("remote"), Some(1));
    assert_eq!(EmbedderRegistry::validate_method("Local"), None);
    assert_eq!(EmbedderRegistry::validate_method("locals"), None);
    assert_eq!(EmbedderRegistry::validate_method(""), None);
    assert_eq!(EmbedderRegistry::validate_method("grpc"), None);
}

#[test]
fn local_allow_list_by_id() {
    assert_eq!(FastEmbedder::get_embedding_model(0), Some(LocalModel::AllMiniLmL6V2));
    assert_eq!(FastEmbedder::get_embedding_model(1), Some(LocalModel::BgeLargeEnV15));
    assert_eq!(FastEmbedder::get_embedding_model(2), None);
    assert_eq!(FastEmbedder::get_embedding_model(-1), None);
    assert!(FastEmbedder::supports_model_id(0));
    assert!(FastEmbedder::supports_model_id(1));
    assert!(!FastEmbedder::supports_model_id(5));
}

#[test]
fn local_model_names() {
    assert_eq!(FastEmbedder::get_model_id("AllMiniLML6V2"), Some(0));
    assert_eq!(FastEmbedder::get_model_id("allminilml6v2"), Some(0));
    assert_eq!(FastEmbedder::get_model_id("BGELargeENV15"), Some(1));
    assert_eq!(FastEmbedder::get_model_id("AllMiniLML12V2"), None);
    assert_eq!(FastEmbedder::get_model_id("no-such-model"), None);
    assert_eq!(FastEmbedder::get_model_id(""), None);
}

#[test]
fn remote_model_names() {
    assert_eq!(GrpcEmbedder::get_model_id("BAAI/bge-small-en"), Some(REMOTE_MODEL_ID));
    assert_eq!(GrpcEmbedder::get_model_id(""), None);
}

#[test]
fn validate_models_per_method() {
    assert_eq!(EmbedderRegistry::validate_model(0, "AllMiniLML6V2"), Some(0));
    assert_eq!(EmbedderRegistry::validate_model(0, "bgelargeenv15"), Some(1));
    assert_eq!(EmbedderRegistry::validate_model(0, "unknown"), None);
    assert_eq!(EmbedderRegistry::validate_model(1, "anything"), Some(0));
    assert_eq!(EmbedderRegistry::validate_model(1, ""), None);
    assert_eq!(EmbedderRegistry::validate_model(99, "AllMiniLML6V2"), None);
}

#[test]
fn model_allowed_per_provider() {
    assert!(EmbedMethod::FastEmbed.is_model_allowed("AllMiniLML6V2"));
    assert!(!EmbedMethod::FastEmbed.is_model_allowed("some-remote-model"));
    assert!(EmbedMethod::Grpc.is_model_allowed("some-remote-model"));
    assert!(!EmbedMethod::Grpc.is_model_allowed(""));
}

#[test]
fn string_equality() {
    assert!(str_equals("local", "local"));
    assert!(str_equals("", ""));
    assert!(str_equals("wörld", "wörld"));
    assert!(!str_equals("local", "remote"));
    assert!(!str_equals("loc", "local"));
    assert!(!str_equals("wörld", "world"));
}

#[test]
fn provider_model_ids() {
    assert!(EmbedMethod::FastEmbed.supports_model_id(0));
    assert!(EmbedMethod::FastEmbed.supports_model_id(1));
    assert!(!EmbedMethod::FastEmbed.supports_model_id(2));
    assert!(EmbedMethod::Grpc.supports_model_id(REMOTE_MODEL_ID));
    assert!(!EmbedMethod::Grpc.supports_model_id(1));
}
