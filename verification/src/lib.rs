//! Transport-agnostic operation layer for the TOON text serialization format.
//!
//! The codec itself (grammar, encoder, decoder) lives in the `toon_format`
//! crate and is treated as an external collaborator; this crate holds the
//! operation layer around it: input normalization, option translation,
//! error normalization, a token-count heuristic, and the four operations
//! (encode, decode, validate, stats) that any transport can call.

pub mod api;
pub mod cli;
pub mod codec;
pub mod errors;
pub mod estimator;
pub mod json;
pub mod ops;
pub mod text;
pub mod types;

pub use api::ApiError;
pub use api::AppState;
pub use api::ErrorDetails;
pub use cli::Args;
pub use cli::ServerMode;
pub use errors::ToonCoreError;
pub use errors::ToonMcpError;
pub use errors::ValidationError;
pub use estimator::estimate_tokens;
pub use ops::build_decode_options;
pub use ops::build_encode_options;
pub use ops::compute_stats;
pub use ops::decode_toon;
pub use ops::encode_json;
pub use ops::format_json_output;
pub use ops::parse_json_input;
pub use ops::validate_toon;
pub use types::DecodeRequest;
pub use types::DecodeResponse;
pub use types::DecodeSettings;
pub use types::DelimiterChoice;
pub use types::EncodeOptionsInput;
pub use types::EncodeRequest;
pub use types::EncodeResponse;
pub use types::EncodeSettings;
pub use types::FormatStats;
pub use types::HealthResponse;
pub use types::SavingsStats;
pub use types::StatsRequest;
pub use types::StatsResponse;
pub use types::ValidateRequest;
pub use types::ValidateResponse;
