use vstd::prelude::*;

verus! {

/// One playback request: a media reference and its length in whole seconds.
#[derive(Debug, Clone)]
pub struct Node {
    pub url: String,
    pub duration_secs: u64,
}

impl Node {
    /// An empty request: no reference, zero length.
    pub fn new() -> (r: Self)
        ensures
            r.url@ == Seq::<char>::empty(),
            r.duration_secs == 0,
    {
        Node { url: String::new(), duration_secs: 0 }
    }

    /// A request for `url` lasting `duration_secs` seconds.
    pub fn from(url: String, duration_secs: u64) -> (r: Self)
        ensures
            r.url@ == url@,
            r.duration_secs == duration_secs,
    {
        Node { url, duration_secs }
    }
}

} // verus!
