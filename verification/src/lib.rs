//! Configuration and control-room logic for a TETRA base-station network.
pub mod text;
pub mod secret;
pub mod sec_asterisk;
pub mod sec_audio_player;
pub mod text_map;
pub mod sec_edge_fallback;
pub mod sec_control_room;
pub mod timing;
pub mod sec_directory;
pub mod sec_media_library;
pub mod sec_echolink;
pub mod sec_brew;
pub mod sec_net;
pub mod sec_cell;
pub mod stack_config;
pub mod cr_config;
pub mod http;
pub mod http_head;
pub mod routes;
pub mod webui;
pub mod operations;
pub mod service_merge;
pub mod summary_fields;
pub mod umac;
pub mod room_state;
pub mod node_state;
pub mod room_registry;
pub mod listings;
pub mod listing_order;
pub mod room_snapshots;
pub mod json;
pub mod directory_doc;
pub mod domain_metrics;
pub mod room_overview;
pub mod edge_status;
pub mod ws_session;
pub mod command_submit;
pub mod laws;
