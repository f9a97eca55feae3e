//! Control-plane logic of a small self-hosted application platform.
//!
//! - `executor`: the deployment state machine and what each pipeline step
//!   is handed; `deployment`: deployment rows and their table.
//! - `health`, `health_checks`: the health controller and its tables;
//!   `liveness`, `servers`: host liveness and the host table.
//! - `webhook`, `webhooks`: push ingress and the webhook table.
//! - `crypto`: the sealed-secret envelope; `config`: process configuration.
//! - `stats`: container samples and their retention.
//! - `applications`, `env_vars`, `domains`, `deploy_keys`: the remaining
//!   tables; `subscriptions`: channel subscriptions of stream connections.
//! - `models`, `docker`, `proxy`, `git`, `auth`: records; `error`,
//!   `validation`: error kinds and input checks; `text`, `ids`: helpers.
pub mod applications;
pub mod auth;
pub mod config;
pub mod crypto;
pub mod deploy_keys;
pub mod deployment;
pub mod docker;
pub mod domains;
pub mod env_vars;
pub mod error;
pub mod executor;
pub mod git;
pub mod health;
pub mod health_checks;
mod ids;
pub mod liveness;
pub mod models;
pub mod proxy;
pub mod servers;
pub mod stats;
pub mod subscriptions;
pub mod text;
pub mod validation;
pub mod webhook;
pub mod webhooks;
