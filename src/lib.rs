pub mod client;
pub mod errors;
pub mod health;
pub mod options;
pub mod text;
pub mod types;
pub mod urls;

pub use client::{datum_from_response, Builder, Client, DatumResponse, MatchResponse, MatchStep, RetryPolicy};
pub use errors::KuponError;
pub use health::{Health, HealthResponse, HealthStatus, ServerInfo};
pub use options::{AssetIdOptions, MatchOptions, QueryPair, RequestTarget, SpentStatus, TransactionIdOptions};
pub use types::{AssetId, BlockReference, DatumHash, Match, MatchValue};
