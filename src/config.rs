//! Process configuration.
use vstd::prelude::*;
use crate::crypto::{sha256, sha256_of};
use vstd::utf8::encode_utf8;

verus! {

#[derive(Clone, Debug)]
pub struct AppConfig {
    pub server: ServerConfig,
    pub database: DatabaseConfig,
    pub auth: AuthConfig,
    pub docker: DockerConfig,
    pub caddy: CaddyConfig,
}

#[derive(Clone, Debug)]
pub struct ServerConfig {
    pub host: String,
    pub port: u16,
    pub base_domain: String,
    pub public_url: String,
    /// Comma-separated allowed CORS origins; `*` allows all.
    pub allowed_origins: String,
}

#[derive(Clone, Debug)]
pub struct DatabaseConfig {
    pub url: String,
}

#[derive(Clone, Debug)]
pub struct AuthConfig {
    pub jwt_secret: String,
    pub token_expiry_hours: u64,
}

#[derive(Clone, Debug)]
pub struct DockerConfig {
    pub socket_path: String,
}

#[derive(Clone, Debug)]
pub struct CaddyConfig {
    pub admin_url: String,
}

impl AppConfig {
    /// The envelope key: the SHA-256 digest of the configured secret.
    pub fn get_secret_key(&self) -> (r: [u8; 32])
        ensures
            r@ == sha256_of(encode_utf8(self.auth.jwt_secret@)),
    {
        sha256(self.auth.jwt_secret.as_str().as_bytes())
    }
}

impl Default for AppConfig {
    /// Development defaults; the secret must be overridden in production.
    fn default() -> (r: AppConfig)
        ensures
            r.server.host@ == "0.0.0.0"@,
            r.server.port == 3001,
            r.server.base_domain@ == "localhost"@,
            r.server.public_url@ == "http://localhost:3001"@,
            r.server.allowed_origins@ == "*"@,
            r.database.url@ == "sqlite://ployer.db?mode=rwc"@,
            r.auth.jwt_secret@ == "change-me-in-production"@,
            r.auth.token_expiry_hours == 24,
            r.docker.socket_path@ == "/var/run/docker.sock"@,
            r.caddy.admin_url@ == "http://localhost:2019"@,
    {
        AppConfig {
            server: ServerConfig {
                host: String::from_str("0.0.0.0"),
                port: 3001,
                base_domain: String::from_str("localhost"),
                public_url: String::from_str("http://localhost:3001"),
                allowed_origins: String::from_str("*"),
            },
            database: DatabaseConfig { url: String::from_str("sqlite://ployer.db?mode=rwc") },
            auth: AuthConfig {
                jwt_secret: String::from_str("change-me-in-production"),
                token_expiry_hours: 24,
            },
            docker: DockerConfig { socket_path: String::from_str("/var/run/docker.sock") },
            caddy: CaddyConfig { admin_url: String::from_str("http://localhost:2019") },
        }
    }
}

} // verus!
