pub mod text;
pub mod protocol;
pub mod wire_path;
pub mod scan;
pub mod error;
pub mod transport;
pub mod probe;
pub mod browse;
pub mod fs_client;
pub mod fs_order;
pub mod remote;
pub mod filter;
pub mod digest;
pub mod paths;
pub mod transfer;
pub mod entries;
pub mod destination;
pub mod sink;
pub mod source;
pub mod fs_server;
pub mod batching;
pub mod remote_output;
pub mod server;
pub mod fs_session;
pub mod browse_server;
pub mod delete_walk;
pub mod session_ladder;
pub mod sink_session;
pub mod source_session;
pub mod client_session;
pub mod striping;
pub mod push_finish;
pub mod data_session;
pub mod client_opening;
pub mod push_session;
pub mod pull_session;
pub mod streams_control;
