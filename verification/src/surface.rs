//! Per-monitor scheduling state.
//!
//! A [`Surface`] owns the configuration snapshot of one monitor and the
//! single rotation-timer registration that goes with it.  Its methods decide,
//! from a new configuration and from the milliseconds elapsed since the
//! displayed image last changed, whether the timer must be cancelled or
//! re-armed and whether the surface must be redrawn.  The event loop that
//! actually registers timers and commits frames performs the returned
//! actions; registrations are correlated through the tokens the surface
//! hands out.

use vstd::prelude::*;

verus! {

/// An immutable snapshot of one monitor's configuration.  A surface detects
/// "did anything change" by comparing whole snapshots by value.
pub struct WallpaperInfo {
    /// File or directory the background image is picked from.
    pub path: String,
    /// Rotation period in milliseconds; `None` means a fixed wallpaper,
    /// no rotation.
    pub duration: Option<u64>,
}

/// Value equality of two configuration snapshots.
pub open spec fn info_eq(a: WallpaperInfo, b: WallpaperInfo) -> bool {
    &&& a.path@ == b.path@
    &&& a.duration == b.duration
}

impl PartialEq for WallpaperInfo {
    fn eq(&self, other: &Self) -> bool {
        let duration_eq = match (self.duration, other.duration) {
            (Option::None, Option::None) => true,
            (Option::Some(a), Option::Some(b)) => a == b,
            _ => false,
        };
        duration_eq && self.path == other.path
    }
}

impl vstd::std_specs::cmp::PartialEqSpecImpl for WallpaperInfo {
    open spec fn obeys_eq_spec() -> bool {
        true
    }

    open spec fn eq_spec(&self, other: &Self) -> bool {
        info_eq(*self, *other)
    }
}

/// Milliseconds left on the rotation schedule: the configured period minus
/// the time already elapsed, or `None` once the period has fully elapsed.
pub open spec fn spec_remaining(duration: u64, elapsed: u64) -> Option<u64> {
    if elapsed < duration {
        Some((duration - elapsed) as u64)
    } else {
        None
    }
}

/// Time left before the displayed image is due to rotate.
///
/// `duration` is the configured rotation period and `elapsed` the time since
/// the image last changed, both in milliseconds.  Returns `None` when the
/// period has already fully elapsed, so the rotation is due now.
pub fn remaining_duration(duration: u64, elapsed: u64) -> (r: Option<u64>)
    ensures
        r == spec_remaining(duration, elapsed),
{
    if elapsed < duration {
        Some(duration - elapsed)
    } else {
        None
    }
}

/// What the event loop must do after a configuration update.  The order is
/// fixed: cancel first, then arm, then draw.
pub struct UpdateAction {
    /// Deregister the timer carrying this token before anything else.
    pub cancel_timer: Option<u64>,
    /// Register a new timer firing after this many milliseconds (0 fires
    /// immediately); the surface records it under its fresh token.
    pub arm_timer: Option<u64>,
    /// Request a redraw of the surface.
    pub queue_draw: bool,
}

/// What the event loop must do when the rotation timer fires.
pub enum TimerDecision {
    /// Rotation was switched off while the timer was in flight: let the
    /// registration die.
    Drop,
    /// The image changed by hand since the timer was armed, so the rotation
    /// is not due yet: re-arm the same registration to fire after this many
    /// milliseconds, without advancing the image.
    Rearm(u64),
    /// The rotation is due: advance to the next image, queue a redraw, and
    /// re-arm the same registration for the full period.
    AdvanceAndRearm(u64),
}

/// The scheduling state of one monitor surface.
pub struct Surface {
    /// The monitor's name, as the display server reports it.
    pub name: String,
    /// Surface size, in surface-local coordinates; zero until configured.
    pub width: u32,
    pub height: u32,
    /// Integer scale factor of the output, at least 1.
    pub scale: i32,
    /// The configuration snapshot currently in force.
    pub wallpaper_info: WallpaperInfo,
    /// Token of the live rotation-timer registration, if one exists.  The
    /// surface holds at most one registration at any instant.
    pub event_source: Option<u64>,
    /// Source of fresh registration tokens.
    pub next_token: u64,
}

impl Surface {
    /// A freshly discovered monitor: unconfigured size, no timer yet.
    pub fn new(name: String, scale: i32, wallpaper_info: WallpaperInfo) -> (s: Self)
        ensures
            s.name@ == name@,
            s.width == 0,
            s.height == 0,
            s.scale == scale,
            s.wallpaper_info == wallpaper_info,
            s.event_source is None,
            s.next_token == 0,
    {
        Surface {
            name,
            width: 0,
            height: 0,
            scale,
            wallpaper_info,
            event_source: None,
            next_token: 0,
        }
    }

    /// The monitor's name.
    pub fn name(&self) -> (r: &str)
        ensures
            r@ == self.name@,
    {
        self.name.as_str()
    }

    /// Whether the surface has been given its real dimensions yet.
    pub fn is_configured(&self) -> (configured: bool)
        ensures
            configured == (self.width != 0 && self.height != 0),
    {
        self.width != 0 && self.height != 0
    }

    /// Record a new size (`None` means only the scale factor changed) and
    /// return the buffer size in pixels, width and height scaled by the
    /// output's scale factor, for the GPU surface to be resized to.
    pub fn resize(&mut self, configure: Option<(u32, u32)>) -> (size: (i32, i32))
        requires
            old(self).scale >= 1,
            (match configure {
                Some(c) => c.0,
                None => old(self).width,
            }) * old(self).scale <= i32::MAX,
            (match configure {
                Some(c) => c.1,
                None => old(self).height,
            }) * old(self).scale <= i32::MAX,
        ensures
            final(self).width == match configure {
                Some(c) => c.0,
                None => old(self).width,
            },
            final(self).height == match configure {
                Some(c) => c.1,
                None => old(self).height,
            },
            size.0 == final(self).width * final(self).scale,
            size.1 == final(self).height * final(self).scale,
            final(self).name == old(self).name,
            final(self).scale == old(self).scale,
            final(self).wallpaper_info == old(self).wallpaper_info,
            final(self).event_source == old(self).event_source,
            final(self).next_token == old(self).next_token,
    {
        if let Some(c) = configure {
            self.width = c.0;
            self.height = c.1;
        }
        proof {
            let s = self.scale as int;
            let w = self.width as int;
            let h = self.height as int;
            assert(w <= w * s && 0 <= w * s) by (nonlinear_arith)
                requires
                    1 <= s,
                    0 <= w,
            ;
            assert(h <= h * s && 0 <= h * s) by (nonlinear_arith)
                requires
                    1 <= s,
                    0 <= h,
            ;
        }
        let width = self.width as i32 * self.scale;
        let height = self.height as i32 * self.scale;
        (width, height)
    }

    /// Register the rotation timer for this surface.
    ///
    /// `timer` is the delay in milliseconds of the first firing; `None`
    /// means the full configured period.  Nothing happens when rotation is
    /// off, and — the re-arm discipline — nothing happens when a
    /// registration already exists: a caller must cancel the old timer
    /// explicitly before arming a new one, so one surface never accumulates
    /// two live timers.
    ///
    /// Returns the delay of the new registration when one was created; the
    /// surface records it under the token `old(self).next_token`.
    pub fn add_timer(&mut self, timer: Option<u64>) -> (armed: Option<u64>)
        requires
            old(self).next_token < u64::MAX,
        ensures
            final(self).name == old(self).name,
            final(self).width == old(self).width,
            final(self).height == old(self).height,
            final(self).scale == old(self).scale,
            final(self).wallpaper_info == old(self).wallpaper_info,
            old(self).wallpaper_info.duration is None ==> armed is None && *final(self) == *old(self),
            old(self).wallpaper_info.duration is Some && old(self).event_source is Some
                ==> armed is None && *final(self) == *old(self),
            old(self).wallpaper_info.duration is Some && old(self).event_source is None ==> {
                &&& armed == Some(
                    match timer {
                        Some(t) => t,
                        None => old(self).wallpaper_info.duration->Some_0,
                    },
                )
                &&& final(self).event_source == Some(old(self).next_token)
                &&& final(self).next_token == old(self).next_token + 1
            },
    {
        match self.wallpaper_info.duration {
            Some(duration) => {
                let delay = match timer {
                    Some(t) => t,
                    None => duration,
                };
                if self.event_source.is_some() {
                    return None;
                }
                self.event_source = Some(self.next_token);
                self.next_token = self.next_token + 1;
                Some(delay)
            },
            None => None,
        }
    }

    /// Swap in a new configuration snapshot and reconcile the rotation
    /// timer with it.
    ///
    /// `path_changed` reports whether the image picker switched to another
    /// image path because of the new configuration; `elapsed` is the time in
    /// milliseconds since the displayed image last changed.
    ///
    /// * Identical snapshot: nothing happens.
    /// * Rotation period unchanged: redraw exactly when the path changed.
    /// * Rotation switched off: cancel the timer; redraw exactly when the
    ///   path changed.
    /// * Rotation switched on or re-tuned: cancel any live timer, then arm a
    ///   new one — for the remaining time of the original schedule when the
    ///   path is unchanged and time remains, immediately otherwise.
    pub fn update_wallpaper_info(
        &mut self,
        wallpaper_info: WallpaperInfo,
        path_changed: bool,
        elapsed: u64,
    ) -> (action: UpdateAction)
        requires
            old(self).next_token < u64::MAX,
        ensures
            final(self).name == old(self).name,
            final(self).width == old(self).width,
            final(self).height == old(self).height,
            final(self).scale == old(self).scale,
            info_eq(wallpaper_info, old(self).wallpaper_info) ==> *final(self) == *old(self)
                && action == (UpdateAction {
                cancel_timer: None,
                arm_timer: None,
                queue_draw: false,
            }),
            !info_eq(wallpaper_info, old(self).wallpaper_info) ==> final(self).wallpaper_info
                == wallpaper_info && {
                let dur_old = old(self).wallpaper_info.duration;
                let dur_new = wallpaper_info.duration;
                if dur_new == dur_old {
                    &&& action == (UpdateAction {
                        cancel_timer: None,
                        arm_timer: None,
                        queue_draw: path_changed,
                    })
                    &&& final(self).event_source == old(self).event_source
                    &&& final(self).next_token == old(self).next_token
                } else if dur_new is None {
                    &&& action == (UpdateAction {
                        cancel_timer: old(self).event_source,
                        arm_timer: None,
                        queue_draw: path_changed,
                    })
                    &&& final(self).event_source is None
                    &&& final(self).next_token == old(self).next_token
                } else {
                    let delay = if !path_changed && spec_remaining(
                        dur_new->Some_0,
                        elapsed,
                    ) is Some {
                        spec_remaining(dur_new->Some_0, elapsed)->Some_0
                    } else {
                        0
                    };
                    &&& action == (UpdateAction {
                        cancel_timer: old(self).event_source,
                        arm_timer: Some(delay),
                        queue_draw: false,
                    })
                    &&& final(self).event_source == Some(old(self).next_token)
                    &&& final(self).next_token == old(self).next_token + 1
                }
            },
            // timer-registration protocol, whatever the branch: a
            // cancellation names exactly the registration held before; an
            // armed timer becomes the only registration the surface holds;
            // an action that touches no timer leaves the registration alone
            action.cancel_timer is Some ==> action.cancel_timer == old(self).event_source,
            action.arm_timer is Some ==> action.cancel_timer == old(self).event_source && final(self).event_source is Some,
            action.arm_timer is None && action.cancel_timer is Some ==> final(self).event_source is None,
            action.arm_timer is None && action.cancel_timer is None ==> final(self).event_source
                == old(self).event_source,
    {
        let unchanged = self.wallpaper_info == wallpaper_info;
        if unchanged {
            return UpdateAction { cancel_timer: None, arm_timer: None, queue_draw: false };
        }
        let old_duration = self.wallpaper_info.duration;
        self.wallpaper_info = wallpaper_info;
        let new_duration = self.wallpaper_info.duration;
        let duration_eq = match (new_duration, old_duration) {
            (Option::None, Option::None) => true,
            (Option::Some(a), Option::Some(b)) => a == b,
            _ => false,
        };
        if !duration_eq {
            match new_duration {
                // rotation is being switched off: cancel any live timer
                None => {
                    let cancel = self.event_source;
                    self.event_source = None;
                    UpdateAction { cancel_timer: cancel, arm_timer: None, queue_draw: path_changed }
                },
                // rotation switched on or re-tuned: cancel, then re-arm —
                // keeping the original schedule when the path is unchanged
                // and time remains, firing immediately otherwise
                Some(duration) => {
                    let cancel = self.event_source;
                    self.event_source = None;
                    let delay = if !path_changed {
                        match remaining_duration(duration, elapsed) {
                            Some(r) => r,
                            None => 0,
                        }
                    } else {
                        0
                    };
                    let armed = self.add_timer(Some(delay));
                    UpdateAction { cancel_timer: cancel, arm_timer: armed, queue_draw: false }
                },
            }
        } else {
            UpdateAction { cancel_timer: None, arm_timer: None, queue_draw: path_changed }
        }
    }

    /// Decide what to do when the rotation timer fires, `elapsed`
    /// milliseconds after the displayed image last changed.
    ///
    /// With rotation switched off the registration is dropped.  When a
    /// manual image change reset the schedule since the timer was armed,
    /// time still remains and the timer is merely re-armed for it; once no
    /// time remains, the image advances, a redraw is queued, and the timer
    /// restarts for the full period.
    pub fn on_timer_fire(&self, elapsed: u64) -> (decision: TimerDecision)
        ensures
            match self.wallpaper_info.duration {
                None => decision is Drop,
                Some(d) => match spec_remaining(d, elapsed) {
                    Some(r) => decision == TimerDecision::Rearm(r),
                    None => decision == TimerDecision::AdvanceAndRearm(d),
                },
            },
    {
        match self.wallpaper_info.duration {
            None => TimerDecision::Drop,
            Some(duration) => match remaining_duration(duration, elapsed) {
                Some(r) => TimerDecision::Rearm(r),
                None => TimerDecision::AdvanceAndRearm(duration),
            },
        }
    }
}

/// The tokens of the registrations a surface state names: none or one.
pub open spec fn tokens_of(event_source: Option<u64>) -> Set<u64> {
    match event_source {
        Some(t) => set![t],
        None => Set::<u64>::empty(),
    }
}

/// The registrations the event loop holds for a surface after it performs
/// an [`UpdateAction`]: the cancelled token goes, then the armed timer is
/// registered under the token the surface now records.
pub open spec fn live_after(
    live: Set<u64>,
    action: UpdateAction,
    post_event_source: Option<u64>,
) -> Set<u64> {
    let cancelled = match action.cancel_timer {
        Some(t) => live.remove(t),
        None => live,
    };
    if action.arm_timer is Some {
        cancelled.insert(post_event_source->Some_0)
    } else {
        cancelled
    }
}

/// At most one live timer registration per surface, for every sequence of
/// configuration updates: if the event loop holds exactly the registrations
/// the surface records (none or one) and performs the action an update
/// returned — cancel first, then arm — it afterwards again holds exactly
/// the registrations the surface records, and so never two at once.  The
/// premises are the timer-registration protocol that
/// [`Surface::update_wallpaper_info`] ensures.
pub proof fn lemma_at_most_one_timer(
    live: Set<u64>,
    pre_event_source: Option<u64>,
    post_event_source: Option<u64>,
    action: UpdateAction,
)
    requires
        live == tokens_of(pre_event_source),
        action.cancel_timer is Some ==> action.cancel_timer == pre_event_source,
        action.arm_timer is Some ==> action.cancel_timer == pre_event_source
            && post_event_source is Some,
        action.arm_timer is None && action.cancel_timer is Some ==> post_event_source is None,
        action.arm_timer is None && action.cancel_timer is None ==> post_event_source
            == pre_event_source,
    ensures
        live_after(live, action, post_event_source) == tokens_of(post_event_source),
        forall|t1: u64, t2: u64|
            live_after(live, action, post_event_source).contains(t1) && live_after(
                live,
                action,
                post_event_source,
            ).contains(t2) ==> t1 == t2,
{
    let after = live_after(live, action, post_event_source);
    if action.arm_timer is Some {
        match action.cancel_timer {
            Some(t) => {
                assert(after =~= tokens_of(post_event_source));
            },
            None => {
                assert(after =~= tokens_of(post_event_source));
            },
        }
    } else {
        match action.cancel_timer {
            Some(t) => {
                assert(after =~= tokens_of(post_event_source));
            },
            None => {
                assert(after =~= tokens_of(post_event_source));
            },
        }
    }
}

} // verus!
