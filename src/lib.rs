//! Host-side runtime support for policies compiled by the Open Policy Agent
//! toolchain into WebAssembly modules.

pub mod base64url;
pub mod builtins;
pub mod context;
pub mod crypto;
pub mod error;
pub mod glob;
pub mod graphql;
pub mod hex;
pub mod http;
pub mod io;
pub mod json;
pub mod misc;
pub mod net;
pub mod object;
pub mod opa;
pub mod policy;
pub mod rand;
pub mod regex;
pub mod semver;
pub(crate) mod text;
pub mod time;
pub mod types;
pub mod units;
pub mod urlquery;
pub mod uuid;
pub mod yaml;
