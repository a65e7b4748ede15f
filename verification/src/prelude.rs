//! A single import for the common types of the library.

pub use crate::error::{ApiError, ApiErrorView};
pub use crate::json::JsonValue;
pub use crate::params::{ClientParams, ParamsSource, RequestParams};
pub use crate::pool::{AddressPool, ConfigurationError};
pub use crate::requests::{
    Client, Endpoint, HttpMethod, IndexClient, IndexExistsRequestBuilder, RawRequestBuilder,
    SendableRequest,
};
pub use crate::responses::{
    parse_command, parse_delete, parse_index, parse_index_exists, parse_ping, CommandResponse,
    DeleteResponse, IndexResponse, IndicesExistsResponse, Outcome, ParseFailure, PingResponse,
};
pub use crate::transport::{ResponseEnvelope, TransportError, TransportOutcome};
