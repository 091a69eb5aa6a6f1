use vstd::prelude::*;

verus! {

/// Per-endpoint connection policy, fixed once the Open frames are exchanged.
#[derive(Debug, PartialEq)]
pub struct Configuration {
    /// The most sessions that may be open at once.
    pub channel_max: u16,
    pub max_frame_size: u32,
    /// Idle timeout in milliseconds; zero disables it.
    pub idle_time_out: u32,
    pub hostname: Option<String>,
    pub container_id: String,
}

impl Configuration {
    pub fn new(channel_max: u16, max_frame_size: u32, idle_time_out: u32, container_id: String) -> (r: Configuration)
        ensures
            r == (Configuration {
                channel_max,
                max_frame_size,
                idle_time_out,
                hostname: None,
                container_id,
            }),
    {
        Configuration { channel_max, max_frame_size, idle_time_out, hostname: None, container_id }
    }
}

} // verus!
