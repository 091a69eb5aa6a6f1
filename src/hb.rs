//! The heartbeat watchdog: a pure function of time and I/O activity.
use vstd::prelude::*;

verus! {

/// What the watchdog asks of the driver on a tick.
#[derive(Debug, Clone, Copy, PartialEq, Eq, Structural)]
pub enum HeartbeatAction {
    Nothing,
    /// Send an Empty frame: we have been silent for half the peer's timeout.
    Heartbeat,
    /// Give up: nothing was received for twice the local timeout.
    Close,
}

/// Two deadlines, in milliseconds of a monotonic clock.
#[derive(Debug, Clone, Copy)]
pub struct Heartbeat {
    /// Local idle timeout; zero disables the receive watch.
    pub local: u32,
    /// The peer's idle timeout; zero disables heartbeat emission.
    pub remote: u32,
    /// When a frame was last received.
    pub last_read: u64,
    /// When a frame was last written.
    pub last_write: u64,
}

impl Heartbeat {
    /// Nothing received for twice the local timeout.
    pub open spec fn read_expired(&self, now: u64) -> bool {
        self.local > 0 && now >= self.last_read + 2 * self.local
    }

    /// Nothing written for half the peer's timeout.
    pub open spec fn write_due(&self, now: u64) -> bool {
        self.remote > 0 && now >= self.last_write + self.remote / 2
    }

    pub open spec fn new_spec(local: u32, remote: u32, now: u64) -> Heartbeat {
        Heartbeat { local, remote, last_read: now, last_write: now }
    }

    pub fn new(local: u32, remote: u32, now: u64) -> (r: Heartbeat)
        ensures
            r == Heartbeat::new_spec(local, remote, now),
    {
        Heartbeat { local, remote, last_read: now, last_write: now }
    }

    /// Notes read activity, if there was any.
    pub fn update_local(&mut self, activity: bool, now: u64)
        ensures
            *final(self) == (if activity {
                Heartbeat { last_read: now, ..*old(self) }
            } else {
                *old(self)
            }),
    {
        if activity {
            self.last_read = now;
        }
    }

    /// Notes write activity, if there was any.
    pub fn update_remote(&mut self, activity: bool, now: u64)
        ensures
            *final(self) == (if activity {
                Heartbeat { last_write: now, ..*old(self) }
            } else {
                *old(self)
            }),
    {
        if activity {
            self.last_write = now;
        }
    }

    /// One tick. An expired receive watch wins over a due heartbeat; a due
    /// heartbeat restarts the send watch.
    pub fn poll(&mut self, now: u64) -> (r: HeartbeatAction)
        ensures
            old(self).read_expired(now) ==> r == HeartbeatAction::Close && *final(self) == *old(
                self,
            ),
            !old(self).read_expired(now) && old(self).write_due(now) ==> r
                == HeartbeatAction::Heartbeat && *final(self) == (Heartbeat {
                last_write: now,
                ..*old(self)
            }),
            !old(self).read_expired(now) && !old(self).write_due(now) ==> r == HeartbeatAction::Nothing
                && *final(self) == *old(self),
    {
        let local = self.local as u64;
        let remote = self.remote as u64;
        if local > 0 && now >= self.last_read && now - self.last_read >= 2 * local {
            HeartbeatAction::Close
        } else if remote > 0 && now >= self.last_write && now - self.last_write >= remote / 2 {
            self.last_write = now;
            HeartbeatAction::Heartbeat
        } else {
            HeartbeatAction::Nothing
        }
    }
}

} // verus!
