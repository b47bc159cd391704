// SolProbe's engine: the state, refresh and view machinery of a terminal
// dashboard that watches a remote ledger node. The modules here hold the
// application state and its input router, the refresh scheduler, the
// diagnostics evaluator that turns raw metrics into health signals, the
// slot-advance probe, and the projection of state into view-models; the
// thin I/O shell around them (RPC, terminal drawing, configuration files)
// stays outside and hands in plain values.
pub mod app;
pub mod cli;
pub mod config;
pub mod diagnostics;
pub mod parse;
pub mod probe;
pub mod scheduler;
pub mod types;
pub mod view;
