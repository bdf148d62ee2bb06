pub mod get_queue;
pub mod join_channel;
pub mod search_state;
pub mod track_end_handler;
