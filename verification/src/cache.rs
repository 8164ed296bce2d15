//! The mtime-invalidated configuration cache. The file's modification time is
//! the sole freshness signal: a lookup serves the cached document while the
//! observed time equals the stored one, and a reload adopts either the parsed
//! document or a caller-supplied default, remembering whether the default
//! still has to be persisted. Reading the file and measuring its time are the
//! caller's outside work; every decision on those observations is made here.

use vstd::prelude::*;

verus! {

/// A cached document together with the modification time of the file it was
/// taken from (`None`: the file was absent or its time unreadable).
pub struct CacheEntry<T> {
    pub data: T,
    pub source_mtime: Option<u64>,
}

/// The cache slot for one configuration document.
pub struct ConfigCache<T> {
    pub entry: Option<CacheEntry<T>>,
}

impl<T> ConfigCache<T> {
    /// The cached document may be served for this observed modification time:
    /// something is cached, the file's time could be observed, and it equals
    /// the stored one.
    pub open spec fn is_fresh_for(&self, observed_mtime: Option<u64>) -> bool {
        &&& self.entry is Some
        &&& observed_mtime is Some
        &&& self.entry->Some_0.source_mtime == observed_mtime
    }

    /// An empty cache: the first load must read the file.
    pub fn new() -> (c: Self)
        ensures
            c.entry is None,
    {
        ConfigCache { entry: None }
    }

    /// Serves the cached document if it is still fresh for the observed
    /// modification time; `None` asks the caller to read and parse the file
    /// and hand the outcome to [`ConfigCache::finish_load`].
    pub fn lookup(&self, observed_mtime: Option<u64>) -> (r: Option<&T>)
        ensures
            match r {
                Some(d) => self.is_fresh_for(observed_mtime) && *d == self.entry->Some_0.data,
                None => !self.is_fresh_for(observed_mtime),
            },
    {
        match &self.entry {
            Some(entry) => {
                match (entry.source_mtime, observed_mtime) {
                    (Some(stored), Some(observed)) => {
                        if stored == observed {
                            Some(&entry.data)
                        } else {
                            None
                        }
                    },
                    _ => None,
                }
            },
            None => None,
        }
    }

    /// Replaces the cache with a document and the modification time measured
    /// for it. Also the cache-refresh step of a save: the just-written value
    /// is adopted with a freshly measured time.
    pub fn adopt(&mut self, data: T, measured_mtime: Option<u64>)
        ensures
            final(self).entry matches Some(e) && e.data == data && e.source_mtime
                == measured_mtime,
    {
        self.entry = Some(CacheEntry { data, source_mtime: measured_mtime });
    }

    /// Ends a load that had to read the file: adopts the parsed document, or
    /// the default where reading or parsing failed. Returns whether the
    /// default must be persisted back to the file.
    pub fn finish_load(&mut self, parsed: Option<T>, default: T, measured_mtime: Option<u64>) -> (
        persist_default: bool)
        ensures
            final(self).entry is Some,
            final(self).entry->Some_0.source_mtime == measured_mtime,
            match parsed {
                Some(v) => final(self).entry->Some_0.data == v && !persist_default,
                None => final(self).entry->Some_0.data == default && persist_default,
            },
    {
        match parsed {
            Some(v) => {
                self.adopt(v, measured_mtime);
                false
            },
            None => {
                self.adopt(default, measured_mtime);
                true
            },
        }
    }
}

/// Model of one whole load: given the observed modification time and what a
/// read-plus-parse would yield, the cache afterwards, the document served,
/// and whether the file was read at all.
pub open spec fn load_model<T>(
    c: ConfigCache<T>,
    observed_mtime: Option<u64>,
    parsed: Option<T>,
    default: T,
) -> (ConfigCache<T>, T, bool) {
    if c.is_fresh_for(observed_mtime) {
        (c, c.entry->Some_0.data, false)
    } else {
        let adopted = match parsed {
            Some(v) => v,
            None => default,
        };
        (
            ConfigCache { entry: Some(CacheEntry { data: adopted, source_mtime: observed_mtime }) },
            adopted,
            true,
        )
    }
}

/// Loading twice while the backing file's modification time stays observable
/// and unchanged serves the identical in-memory document the second time,
/// without reading the file again and without touching the cache.
pub proof fn lemma_second_load_cached<T>(
    c: ConfigCache<T>,
    m: u64,
    parsed1: Option<T>,
    default1: T,
    parsed2: Option<T>,
    default2: T,
)
    ensures
        ({
            let (c1, v1, _) = load_model(c, Some(m), parsed1, default1);
            let (c2, v2, read2) = load_model(c1, Some(m), parsed2, default2);
            c2 == c1 && v2 == v1 && !read2
        }),
{
}

} // verus!
