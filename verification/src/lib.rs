pub mod errors;
pub mod rng;
pub mod timeline;
pub mod strutil;
pub mod hexid;
pub mod timefmt;
pub mod session;
pub mod executor;
pub mod credentials;
pub mod jsonio;
pub mod gateway;
pub mod urlenc;
pub mod jsonesc;
pub mod urls;
pub mod headers;
