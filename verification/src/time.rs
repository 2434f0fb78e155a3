//! Frame pacer: decides how many simulation updates may run per displayed
//! frame, bounded by a wall-clock budget, a per-frame ceiling and a minimum
//! delay between updates, and samples frame/update rates over a configured
//! interval.
//!
//! All clock readings are expressed as nanoseconds since the pacer's creation.
//! The `*_at` methods take such a reading as an argument and carry the exact
//! contracts; the argument-free methods read the monotonic clock themselves
//! and promise only what holds for every possible reading.

use vstd::prelude::*;

verus! {

/// Relies on `std::time::Instant`: an opaque reading of the monotonic clock.
#[verifier::external_type_specification]
#[verifier::external_body]
pub struct ExInstant(std::time::Instant);

/// Relies on `std::time::Instant::now`: returns the current instant.
/// Nothing is assumed of the value; every result flows into a `*_at` method
/// that is verified for all possible readings.
pub assume_specification[ std::time::Instant::now ]() -> (r: std::time::Instant);

/// Relies on `std::time::Instant::elapsed`: the time since `i`, as a
/// duration. Nothing is assumed of the value.
pub assume_specification[ std::time::Instant::elapsed ](i: &std::time::Instant) -> (r: std::time::Duration);

/// Relies on `core::time::Duration::as_nanos`: the whole duration in
/// nanoseconds. Nothing is assumed of the value.
pub assume_specification[ core::time::Duration::as_nanos ](d: &core::time::Duration) -> (r: u128);

pub const NANOS_PER_SEC: u64 = 1_000_000_000;

/// Frame/update rates measured over the last sampling interval, in events
/// per second (clamped to `u32::MAX`).
pub struct FPSData {
    pub render_fps: u32,
    pub update_fps: u32,
}

pub struct Time {
    /// Instant the pacer was created; all other times count nanoseconds from here.
    epoch: std::time::Instant,
    last_frame: u64,
    last_update: u64,
    last_fps_check: u64,
    fps_update_duration: u64,
    max_update_time: u64,
    update_delay: u64,
    target_updates_per_frame: u32,
    frame_since_last_fps_check: u32,
    updates_since_last_fps_check: u32,
    updates_this_frame: u32,
}

/// Nanoseconds from `then` to `now`, zero if `now` is the earlier reading.
pub open spec fn since(now: u64, then: u64) -> int {
    if now >= then {
        now - then
    } else {
        0
    }
}

/// `count` events per `dur_nanos` nanoseconds, as events per second,
/// clamped to `u32::MAX`; zero when the interval is zero.
pub open spec fn rate_per_sec(count: u32, dur_nanos: u64) -> u32 {
    if dur_nanos == 0 {
        0u32
    } else {
        let r = count * NANOS_PER_SEC / (dur_nanos as int);
        if r > u32::MAX {
            u32::MAX
        } else {
            r as u32
        }
    }
}

impl Time {
    pub closed spec fn spec_target_updates_per_frame(self) -> u32 {
        self.target_updates_per_frame
    }

    pub closed spec fn spec_update_delay(self) -> u64 {
        self.update_delay
    }

    pub closed spec fn spec_max_update_time(self) -> u64 {
        self.max_update_time
    }

    pub closed spec fn spec_fps_update_duration(self) -> u64 {
        self.fps_update_duration
    }

    pub closed spec fn spec_updates_this_frame(self) -> u32 {
        self.updates_this_frame
    }

    pub closed spec fn spec_frames_since_fps_check(self) -> u32 {
        self.frame_since_last_fps_check
    }

    pub closed spec fn spec_updates_since_fps_check(self) -> u32 {
        self.updates_since_last_fps_check
    }

    pub closed spec fn spec_last_frame(self) -> u64 {
        self.last_frame
    }

    pub closed spec fn spec_last_update(self) -> u64 {
        self.last_update
    }

    pub closed spec fn spec_last_fps_check(self) -> u64 {
        self.last_fps_check
    }

    /// The configuration fields of `a` and `b` agree.
    pub open spec fn same_config(a: Time, b: Time) -> bool {
        &&& a.spec_fps_update_duration() == b.spec_fps_update_duration()
        &&& a.spec_max_update_time() == b.spec_max_update_time()
        &&& a.spec_update_delay() == b.spec_update_delay()
        &&& a.spec_target_updates_per_frame() == b.spec_target_updates_per_frame()
    }

    /// An update is allowed at clock reading `now` iff the frame's wall-clock
    /// budget is not exhausted, the per-frame ceiling is not reached, and the
    /// minimum delay since the previous update has passed.
    pub open spec fn spec_can_update(self, now: u64) -> bool {
        &&& since(now, self.spec_last_frame()) < self.spec_max_update_time()
        &&& self.spec_updates_this_frame() < self.spec_target_updates_per_frame()
        &&& since(now, self.spec_last_update()) > self.spec_update_delay()
    }

    /// An FPS sample is due at clock reading `now` iff more than the
    /// configured interval has passed since the last sample.
    pub open spec fn spec_fps_due(self, now: u64) -> bool {
        since(now, self.spec_last_fps_check()) > self.spec_fps_update_duration()
    }

    /// Current clock reading in nanoseconds since this pacer's creation.
    fn now_nanos(&self) -> u64 {
        #[verifier::truncate]
        let n = self.epoch.elapsed().as_nanos() as u64;
        n
    }

    pub fn new(
        updates_per_frame: u32,
        fps_update_duration: u64,
        max_update_time: u64,
        update_delay: u64,
    ) -> (t: Time)
        ensures
            t.spec_target_updates_per_frame() == updates_per_frame,
            t.spec_fps_update_duration() == fps_update_duration,
            t.spec_max_update_time() == max_update_time,
            t.spec_update_delay() == update_delay,
            t.spec_updates_this_frame() == 0,
            t.spec_frames_since_fps_check() == 0,
            t.spec_updates_since_fps_check() == 0,
            t.spec_last_frame() == 0,
            t.spec_last_update() == 0,
            t.spec_last_fps_check() == 0,
    {
        Time {
            epoch: std::time::Instant::now(),
            last_frame: 0,
            last_update: 0,
            last_fps_check: 0,
            fps_update_duration,
            max_update_time,
            update_delay,
            target_updates_per_frame: updates_per_frame,
            frame_since_last_fps_check: 0,
            updates_since_last_fps_check: 0,
            updates_this_frame: 0,
        }
    }

    /// Nanoseconds elapsed since the pacer was created. The value is a raw
    /// clock reading; nothing can be promised of it.
    pub fn get_elapsed(&self) -> u64 {
        self.now_nanos()
    }

    /// Reconfigure the per-frame update ceiling and the minimum delay between
    /// updates; takes effect immediately.
    pub fn update_delays(&mut self, updates_per_frame: u32, update_delay: u64)
        ensures
            final(self).spec_target_updates_per_frame() == updates_per_frame,
            final(self).spec_update_delay() == update_delay,
            final(self).spec_fps_update_duration() == old(self).spec_fps_update_duration(),
            final(self).spec_max_update_time() == old(self).spec_max_update_time(),
            final(self).spec_updates_this_frame() == old(self).spec_updates_this_frame(),
            final(self).spec_frames_since_fps_check() == old(self).spec_frames_since_fps_check(),
            final(self).spec_updates_since_fps_check() == old(self).spec_updates_since_fps_check(),
            final(self).spec_last_frame() == old(self).spec_last_frame(),
            final(self).spec_last_update() == old(self).spec_last_update(),
            final(self).spec_last_fps_check() == old(self).spec_last_fps_check(),
    {
        self.target_updates_per_frame = updates_per_frame;
        self.update_delay = update_delay;
    }

    /// Whether another simulation update may run at clock reading `now`.
    pub fn can_update_at(&self, now: u64) -> (r: bool)
        ensures
            r == self.spec_can_update(now),
    {
        let frame_elapsed = if now >= self.last_frame {
            now - self.last_frame
        } else {
            0
        };
        let update_elapsed = if now >= self.last_update {
            now - self.last_update
        } else {
            0
        };
        let is_time_left = frame_elapsed < self.max_update_time;
        let max_frames_reached = self.updates_this_frame >= self.target_updates_per_frame;
        let delayed_enough = update_elapsed > self.update_delay;
        is_time_left && !max_frames_reached && delayed_enough
    }

    /// Whether another simulation update may run now. Reads the clock, so
    /// only the clock-independent direction is promised: once the per-frame
    /// ceiling is reached, no update is allowed.
    pub fn can_update(&self) -> (r: bool)
        ensures
            r ==> self.spec_updates_this_frame() < self.spec_target_updates_per_frame(),
    {
        let now = self.now_nanos();
        self.can_update_at(now)
    }

    /// Record one simulation update at clock reading `now`.
    pub fn update_tick_at(&mut self, now: u64)
        ensures
            final(self).spec_updates_this_frame()
                == old(self).spec_updates_this_frame().saturating_add(1),
            final(self).spec_updates_since_fps_check()
                == old(self).spec_updates_since_fps_check().saturating_add(1),
            final(self).spec_last_update() == now,
            final(self).spec_frames_since_fps_check() == old(self).spec_frames_since_fps_check(),
            final(self).spec_last_frame() == old(self).spec_last_frame(),
            final(self).spec_last_fps_check() == old(self).spec_last_fps_check(),
            Time::same_config(*final(self), *old(self)),
    {
        self.updates_this_frame = self.updates_this_frame.saturating_add(1);
        self.updates_since_last_fps_check = self.updates_since_last_fps_check.saturating_add(1);
        self.last_update = now;
    }

    /// Record one simulation update now.
    pub fn update_tick(&mut self)
        ensures
            final(self).spec_updates_this_frame()
                == old(self).spec_updates_this_frame().saturating_add(1),
            final(self).spec_updates_since_fps_check()
                == old(self).spec_updates_since_fps_check().saturating_add(1),
            final(self).spec_frames_since_fps_check() == old(self).spec_frames_since_fps_check(),
            final(self).spec_last_frame() == old(self).spec_last_frame(),
            final(self).spec_last_fps_check() == old(self).spec_last_fps_check(),
            Time::same_config(*final(self), *old(self)),
    {
        let now = self.now_nanos();
        self.update_tick_at(now);
    }

    /// Record one displayed frame at clock reading `now`: restart the
    /// per-frame clock and the per-frame update counter.
    pub fn render_tick_at(&mut self, now: u64)
        ensures
            final(self).spec_updates_this_frame() == 0,
            final(self).spec_last_frame() == now,
            final(self).spec_frames_since_fps_check()
                == old(self).spec_frames_since_fps_check().saturating_add(1),
            final(self).spec_updates_since_fps_check()
                == old(self).spec_updates_since_fps_check(),
            final(self).spec_last_update() == old(self).spec_last_update(),
            final(self).spec_last_fps_check() == old(self).spec_last_fps_check(),
            Time::same_config(*final(self), *old(self)),
    {
        self.last_frame = now;
        self.frame_since_last_fps_check = self.frame_since_last_fps_check.saturating_add(1);
        self.updates_this_frame = 0;
    }

    /// Record one displayed frame now.
    pub fn render_tick(&mut self)
        ensures
            final(self).spec_updates_this_frame() == 0,
            final(self).spec_frames_since_fps_check()
                == old(self).spec_frames_since_fps_check().saturating_add(1),
            final(self).spec_updates_since_fps_check()
                == old(self).spec_updates_since_fps_check(),
            final(self).spec_last_update() == old(self).spec_last_update(),
            final(self).spec_last_fps_check() == old(self).spec_last_fps_check(),
            Time::same_config(*final(self), *old(self)),
    {
        let now = self.now_nanos();
        self.render_tick_at(now);
    }

    /// Sample the frame/update rates at clock reading `now`. Returns `None`
    /// until more than the configured interval has passed since the last
    /// sample; otherwise returns both rates over the configured interval and
    /// resets the cumulative counters and the sample clock.
    pub fn get_fps_at(&mut self, now: u64) -> (r: Option<FPSData>)
        ensures
            r is Some <==> old(self).spec_fps_due(now),
            match r {
                Some(f) => {
                    &&& f.render_fps == rate_per_sec(
                        old(self).spec_frames_since_fps_check(),
                        old(self).spec_fps_update_duration(),
                    )
                    &&& f.update_fps == rate_per_sec(
                        old(self).spec_updates_since_fps_check(),
                        old(self).spec_fps_update_duration(),
                    )
                    &&& final(self).spec_frames_since_fps_check() == 0
                    &&& final(self).spec_updates_since_fps_check() == 0
                    &&& final(self).spec_last_fps_check() == now
                    &&& final(self).spec_updates_this_frame()
                        == old(self).spec_updates_this_frame()
                    &&& final(self).spec_last_frame() == old(self).spec_last_frame()
                    &&& final(self).spec_last_update() == old(self).spec_last_update()
                    &&& Time::same_config(*final(self), *old(self))
                },
                None => *final(self) == *old(self),
            },
    {
        let elapsed = if now >= self.last_fps_check {
            now - self.last_fps_check
        } else {
            0
        };
        if elapsed > self.fps_update_duration {
            let fps = Self::rate(self.frame_since_last_fps_check, self.fps_update_duration);
            let ups = Self::rate(self.updates_since_last_fps_check, self.fps_update_duration);
            self.frame_since_last_fps_check = 0;
            self.updates_since_last_fps_check = 0;
            self.last_fps_check = now;
            Some(FPSData { render_fps: fps, update_fps: ups })
        } else {
            None
        }
    }

    /// Sample the frame/update rates now. Whether a sample is due depends on
    /// the clock; the returned rates and the resets are promised either way.
    pub fn get_fps(&mut self) -> (r: Option<FPSData>)
        ensures
            match r {
                Some(f) => {
                    &&& f.render_fps == rate_per_sec(
                        old(self).spec_frames_since_fps_check(),
                        old(self).spec_fps_update_duration(),
                    )
                    &&& f.update_fps == rate_per_sec(
                        old(self).spec_updates_since_fps_check(),
                        old(self).spec_fps_update_duration(),
                    )
                    &&& final(self).spec_frames_since_fps_check() == 0
                    &&& final(self).spec_updates_since_fps_check() == 0
                    &&& final(self).spec_updates_this_frame()
                        == old(self).spec_updates_this_frame()
                    &&& Time::same_config(*final(self), *old(self))
                },
                None => *final(self) == *old(self),
            },
    {
        let now = self.now_nanos();
        self.get_fps_at(now)
    }

    /// `count` events over the configured interval, as events per second.
    fn rate(count: u32, dur_nanos: u64) -> (r: u32)
        ensures
            r == rate_per_sec(count, dur_nanos),
    {
        if dur_nanos == 0 {
            0
        } else {
            let prod: u64 = (count as u64) * NANOS_PER_SEC;
            let r64: u64 = prod / dur_nanos;
            if r64 > u32::MAX as u64 {
                u32::MAX
            } else {
                r64 as u32
            }
        }
    }
}

/// Every permitted update happens strictly below the per-frame ceiling. With
/// `render_tick` resetting the counter to zero and `update_tick` raising it
/// by one, a single frame can therefore see at most the ceiling's worth of
/// permitted updates, whatever the clock does.
pub proof fn lemma_update_budget(t: Time, now: u64)
    requires
        t.spec_can_update(now),
    ensures
        t.spec_updates_this_frame() < t.spec_target_updates_per_frame(),
{
}

/// Once the per-frame ceiling is reached, the pacer denies updates at every
/// clock reading; together with `update_tick`'s counting and `render_tick`'s
/// reset this bounds the updates per frame by the ceiling.
pub proof fn lemma_ceiling_denies_updates(t: Time, now: u64)
    requires
        t.spec_updates_this_frame() >= t.spec_target_updates_per_frame(),
    ensures
        !t.spec_can_update(now),
{
}

/// Immediately after a sample is taken, a second sample within the configured
/// interval is denied.
pub proof fn lemma_fps_sample_interval(t: Time, now: u64)
    requires
        since(now, t.spec_last_fps_check()) <= t.spec_fps_update_duration(),
    ensures
        !t.spec_fps_due(now),
{
}

} // verus!

