use vstd::prelude::*;

verus! {

/// Where the application listens.
pub struct AppConfig {
    pub host: String,
    pub port: u16,
}

/// How the database is reached.
pub struct DBConfig {
    pub host: String,
    pub port: u16,
    pub username: String,
    pub password: String,
    pub db_name: String,
}

/// The whole startup configuration: constructed once at startup, passed in
/// explicitly, and never mutated.
pub struct Configuration {
    pub db: DBConfig,
    pub app: AppConfig,
}

} // verus!
