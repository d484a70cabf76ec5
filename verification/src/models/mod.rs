pub mod account;
pub mod bookmarks;
pub mod db_cursor;
pub mod favicon_cache;
pub mod operation;
pub mod provider;
pub mod sync_status;
