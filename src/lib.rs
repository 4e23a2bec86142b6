//! Client-side activation of a per-project build-cache daemon: configuration
//! discovery, fingerprinting, the daemon registry record, and the activation
//! state machine that decides what to spawn, poll and export.
pub mod paths;
pub mod procstat;
pub mod record;
pub mod shell;
pub mod text;
pub mod activation;
pub mod decimal;
pub mod fingerprint;
pub mod xdg;
