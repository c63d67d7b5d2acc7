//! Typed requests and responses for a brokerage's market-data REST API:
//! path and query construction, status classification and the
//! continuation protocol of list endpoints.

pub mod endpoint;
pub mod prefix;
pub mod decimal;
pub mod feed;
pub mod time;
pub mod list;
pub mod quotes;
pub mod trades;
pub mod pagination;
