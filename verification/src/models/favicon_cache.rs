use vstd::prelude::*;

verus! {

/// A favicon fetched for a bookmark, kept with the time it was fetched.
#[derive(Debug, Clone)]
pub struct FaviconCache {
    pub favicon_url: String,
    pub favicon_data: Vec<u8>,
    pub last_sync_timestamp: i64,
}

impl FaviconCache {
    pub fn new(favicon_url: String, favicon_data: Vec<u8>, last_sync_timestamp: i64) -> (res: Self)
        ensures
            res.favicon_url == favicon_url,
            res.favicon_data == favicon_data,
            res.last_sync_timestamp == last_sync_timestamp,
    {
        FaviconCache { favicon_url, favicon_data, last_sync_timestamp }
    }
}

} // verus!
