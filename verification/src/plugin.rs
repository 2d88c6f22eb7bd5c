//! The configuration surface: the file-backed writer's destination,
//! the plugin options, and the autosave timer structure. The timer is
//! defined as part of the surface but deliberately not wired into the
//! generic pipeline: saving on a period stays with the calling
//! application, which ticks the timer and calls the sink itself.

use vstd::prelude::*;

verus! {

/// The file-backed Writer Capability's configuration: the destination
/// path. The hosting application opens the path and performs the
/// asynchronous reads and writes; the serialized bytes, the overwrite
/// rule and the load rule come from this crate.
pub struct FileSink {
    pub path: String,
}

impl FileSink {
    pub fn new(path: String) -> (r: FileSink)
        ensures
            r.path@ == path@,
    {
        FileSink { path }
    }
}

/// The sink's configuration: the destination path, and whether the
/// change watcher feeds the sink on every detected change.
pub struct FileSinkPlugin {
    /// If true, the state is synced to the sink on every change.
    pub sync_res: bool,
    pub path: String,
}

impl FileSinkPlugin {
    /// A sink over the given destination; the change watcher starts
    /// disabled.
    pub fn new(path: String) -> (r: FileSinkPlugin)
        ensures
            r.path@ == path@,
            !r.sync_res,
    {
        FileSinkPlugin { path, sync_res: false }
    }
}

/// An autosave timer's state, in milliseconds.
#[derive(Clone, Copy, Debug, PartialEq, Eq, Structural)]
pub struct SaveTimer {
    pub period_millis: u64,
    pub elapsed_millis: u64,
}

impl SaveTimer {
    pub fn new(period_millis: u64) -> (r: SaveTimer)
        ensures
            r.period_millis == period_millis,
            r.elapsed_millis == 0,
    {
        SaveTimer { period_millis, elapsed_millis: 0 }
    }

    /// Advances the timer and reports whether a period elapsed; a
    /// fired timer starts its next period from zero.
    pub fn tick(&mut self, delta_millis: u64) -> (fired: bool)
        ensures
            final(self).period_millis == old(self).period_millis,
            fired == (old(self).elapsed_millis + delta_millis >= old(self).period_millis),
            fired ==> final(self).elapsed_millis == 0,
            !fired ==> final(self).elapsed_millis == old(self).elapsed_millis + delta_millis,
    {
        let fired = if delta_millis >= self.period_millis {
            true
        } else {
            self.elapsed_millis >= self.period_millis - delta_millis
        };
        if fired {
            self.elapsed_millis = 0;
        } else {
            self.elapsed_millis = self.elapsed_millis + delta_millis;
        }
        fired
    }
}

/// The autosave option: part of the recognized configuration, driven
/// by the application's own loop rather than by the pipeline.
pub struct AutoSave {
    pub enabled: bool,
    pub timer: SaveTimer,
}

impl AutoSave {
    /// An enabled autosave around the given timer.
    pub fn from_timer(timer: SaveTimer) -> (r: AutoSave)
        ensures
            r.enabled,
            r.timer == timer,
    {
        AutoSave { enabled: true, timer }
    }
}

} // verus!
