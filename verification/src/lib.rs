//! Verified decision logic of the hive data gateway and of the telemetry proxy.
pub mod text;
pub mod http;
pub mod urls;
pub mod database;
pub mod user_auth;
pub mod authz;
pub mod auth;
pub mod telemetry;
pub mod routes;
