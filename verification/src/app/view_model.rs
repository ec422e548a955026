use crate::domain::errors::validation_message;
use crate::domain::profile::{has_default_settings, validation_failure, ClickProfile};
use crate::domain::settings::{RunState, StopReason};
use crate::engine::safety::SafetyPolicy;
use crate::infra::clock::utc_now;
use crate::infra::ids::is_hyphenated_v4;
use crate::text::{decimal_string, decimal_text, lowercase, parsed_u32, parse_u32, to_lowercase};
use vstd::prelude::*;
use vstd::string::StringExecFns;

verus! {

/// The state behind the user interface: the profiles, the one being edited,
/// and the texts shown to the user. Persistence and the engine are driven by
/// the caller, from what these methods report.
pub struct ViewModel {
    pub active_profile: ClickProfile,
    pub profiles: Vec<ClickProfile>,
    pub status_text: String,
    pub stop_reason_text: String,
    pub validation_error: Option<String>,
    /// CPS text field (string for editing, parsed to u32)
    pub cps_text: String,
    /// Safety policy (max session, cooldown).
    pub safety: SafetyPolicy,
    /// Name for new profile creation.
    pub new_profile_name: String,
    /// Index of selected profile in the list.
    pub selected_profile_idx: usize,
}

/// Whether some profile in `all` already has the name `name`, ignoring case.
pub open spec fn name_taken(all: Seq<ClickProfile>, name: Seq<char>) -> bool {
    exists|i: int| 0 <= i < all.len() && lowercase(#[trigger] all[i].name@) == lowercase(name)
}

/// The safety limits that a profile enables: each timer's seconds when its
/// switch is on, none otherwise.
pub open spec fn enabled_limit(enabled: bool, secs: Option<u32>) -> Option<u32> {
    if enabled {
        secs
    } else {
        None
    }
}

/// `vm` shows profile `p` as the active one, with its CPS as text.
pub open spec fn shows_profile(vm: ViewModel, p: ClickProfile) -> bool {
    &&& vm.active_profile == p
    &&& vm.cps_text@ == decimal_text(p.cps as nat)
}

/// Some listed profile has the id `id`.
pub open spec fn id_listed(profiles: Seq<ClickProfile>, id: Option<String>) -> bool {
    id is Some && exists|i: int| 0 <= i < profiles.len() && #[trigger] profiles[i].id@ == id.unwrap()@
}

/// The message shown when the CPS text is not a number.
pub open spec fn cps_not_a_number_text() -> Seq<char> {
    "CPS must be a number between 1 and 50"@
}

impl ViewModel {
    /// A view with one default profile named `Default`, selected and active.
    pub fn new() -> (vm: Self)
        ensures
            vm.profiles@.len() == 1,
            vm.selected_profile_idx == 0,
            vm.profiles@[0] == vm.active_profile,
            vm.active_profile.name@ == "Default"@,
            has_default_settings(vm.active_profile),
            is_hyphenated_v4(vm.active_profile.id@),
            shows_profile(vm, vm.active_profile),
            vm.status_text@ == "Idle"@,
            vm.stop_reason_text@.len() == 0,
            vm.validation_error is None,
            vm.safety@.max_session_seconds is None,
            vm.safety@.cooldown_seconds is None,
            vm.safety@.last_session_end is None,
            vm.new_profile_name@.len() == 0,
    {
        let default_profile = ClickProfile::new(String::from_str("Default"));
        let cps_text = decimal_string(default_profile.cps as u64);
        let mut profiles: Vec<ClickProfile> = Vec::new();
        profiles.push(default_profile.copied());
        ViewModel {
            active_profile: default_profile,
            profiles,
            status_text: String::from_str("Idle"),
            stop_reason_text: String::new(),
            validation_error: None,
            cps_text,
            safety: SafetyPolicy::new(None, None),
            new_profile_name: String::new(),
            selected_profile_idx: 0,
        }
    }

    /// Take in the profiles found in storage and the stored last-active id.
    /// An empty list changes nothing; otherwise it replaces the profiles, and
    /// the profile with the last-active id, if listed, becomes selected and
    /// active.
    pub fn load_profiles(&mut self, loaded: Vec<ClickProfile>, last_active_id: Option<String>)
        ensures
            loaded@.len() == 0 ==> *final(self) == *old(self),
            loaded@.len() > 0 ==> final(self).profiles@ == loaded@,
            loaded@.len() > 0 && !id_listed(loaded@, last_active_id) ==> *final(self) == (
            ViewModel { profiles: loaded, ..*old(self) }),
            loaded@.len() > 0 && id_listed(loaded@, last_active_id) ==> {
                &&& final(self).selected_profile_idx < loaded@.len()
                &&& loaded@[final(self).selected_profile_idx as int].id@
                    == last_active_id.unwrap()@
                &&& forall|j: int|
                    0 <= j < final(self).selected_profile_idx ==> #[trigger] loaded@[j].id@
                        != last_active_id.unwrap()@
                &&& shows_profile(*final(self), loaded@[final(self).selected_profile_idx as int])
                &&& final(self).status_text == old(self).status_text
                &&& final(self).stop_reason_text == old(self).stop_reason_text
                &&& final(self).validation_error == old(self).validation_error
                &&& final(self).safety == old(self).safety
                &&& final(self).new_profile_name == old(self).new_profile_name
            },
    {
        if loaded.len() == 0 {
            return ;
        }
        self.profiles = loaded;
        if let Some(last_id) = &last_active_id {
            let n = self.profiles.len();
            let mut i: usize = 0;
            while i < n && self.profiles[i].id != *last_id
                invariant
                    n == self.profiles@.len(),
                    i <= n,
                    forall|j: int| 0 <= j < i ==> #[trigger] self.profiles@[j].id@ != last_id@,
                decreases n - i,
            {
                i = i + 1;
            }
            if i < n {
                self.selected_profile_idx = i;
                self.active_profile = self.profiles[i].copied();
                self.cps_text = decimal_string(self.active_profile.cps as u64);
            }
        }
    }

    /// Switch to a different profile by index: it becomes selected and
    /// active, and the safety policy takes its enabled limits. Returns whether
    /// it switched (only indexes within the list do); the caller then records
    /// the active profile as last active.
    pub fn switch_profile(&mut self, idx: usize) -> (switched: bool)
        ensures
            switched == (idx < old(self).profiles@.len()),
            !switched ==> *final(self) == *old(self),
            switched ==> {
                &&& final(self).selected_profile_idx == idx
                &&& shows_profile(*final(self), old(self).profiles@[idx as int])
                &&& final(self).profiles == old(self).profiles
                &&& final(self).safety@.max_session_seconds == enabled_limit(
                    old(self).profiles@[idx as int].max_session_enabled,
                    old(self).profiles@[idx as int].max_session_seconds,
                )
                &&& final(self).safety@.cooldown_seconds == enabled_limit(
                    old(self).profiles@[idx as int].cooldown_enabled,
                    old(self).profiles@[idx as int].cooldown_seconds,
                )
                &&& final(self).safety@.last_session_end is None
                &&& final(self).status_text == old(self).status_text
                &&& final(self).stop_reason_text == old(self).stop_reason_text
                &&& final(self).validation_error == old(self).validation_error
                &&& final(self).new_profile_name == old(self).new_profile_name
            },
    {
        if idx < self.profiles.len() {
            self.selected_profile_idx = idx;
            self.active_profile = self.profiles[idx].copied();
            self.cps_text = decimal_string(self.active_profile.cps as u64);
            let max_session = if self.active_profile.max_session_enabled {
                self.active_profile.max_session_seconds
            } else {
                None
            };
            let cooldown = if self.active_profile.cooldown_enabled {
                self.active_profile.cooldown_seconds
            } else {
                None
            };
            self.safety = SafetyPolicy::new(max_session, cooldown);
            true
        } else {
            false
        }
    }

    /// Create a new profile with default settings and add it to the list;
    /// the caller stores the new last entry. Profile names are unique,
    /// ignoring case: a name already taken is refused, the list unchanged.
    pub fn create_profile(&mut self, name: String) -> (created: bool)
        ensures
            created == !name_taken(old(self).profiles@, name@),
            !created ==> *final(self) == *old(self),
            created ==> {
                &&& final(self).profiles@.len() == old(self).profiles@.len() + 1
                &&& final(self).profiles@.drop_last() == old(self).profiles@
                &&& final(self).profiles@.last().name == name
                &&& has_default_settings(final(self).profiles@.last())
                &&& is_hyphenated_v4(final(self).profiles@.last().id@)
                &&& *final(self) == (ViewModel { profiles: final(self).profiles, ..*old(self) })
            },
    {
        let lower = to_lowercase(name.as_str());
        let n = self.profiles.len();
        let mut i: usize = 0;
        while i < n
            invariant
                n == self.profiles@.len(),
                i <= n,
                lower@ == lowercase(name@),
                forall|j: int|
                    0 <= j < i ==> lowercase(#[trigger] self.profiles@[j].name@) != lowercase(
                        name@,
                    ),
            decreases n - i,
        {
            let other = to_lowercase(self.profiles[i].name.as_str());
            if other == lower {
                assert(lowercase(self.profiles@[i as int].name@) == lowercase(name@));
                return false;
            }
            i = i + 1;
        }
        let profile = ClickProfile::new(name);
        self.profiles.push(profile);
        assert(self.profiles@.drop_last() =~= old(self).profiles@);
        true
    }

    /// Delete a profile by index. The last remaining profile cannot be
    /// deleted, nor an index outside the list. After a deletion the selection
    /// moves to the last profile if it fell off the end, and the selected
    /// profile becomes active. Returns the deleted profile; the caller
    /// removes its file.
    pub fn delete_profile(&mut self, idx: usize) -> (deleted: Option<ClickProfile>)
        ensures
            (old(self).profiles@.len() <= 1 || idx >= old(self).profiles@.len()) ==> (deleted is None
                && *final(self) == *old(self)),
            (old(self).profiles@.len() > 1 && idx < old(self).profiles@.len()) ==> {
                &&& deleted == Some(old(self).profiles@[idx as int])
                &&& final(self).profiles@ == old(self).profiles@.remove(idx as int)
                &&& final(self).selected_profile_idx == if old(self).selected_profile_idx
                    >= final(self).profiles@.len() {
                    (final(self).profiles@.len() - 1) as usize
                } else {
                    old(self).selected_profile_idx
                }
                &&& shows_profile(
                    *final(self),
                    final(self).profiles@[final(self).selected_profile_idx as int],
                )
                &&& final(self).safety == old(self).safety
                &&& final(self).status_text == old(self).status_text
                &&& final(self).validation_error == old(self).validation_error
            },
    {
        if self.profiles.len() <= 1 || idx >= self.profiles.len() {
            return None;
        }
        let profile = self.profiles.remove(idx);
        // Adjust selected index
        if self.selected_profile_idx >= self.profiles.len() {
            self.selected_profile_idx = self.profiles.len() - 1;
        }
        self.active_profile = self.profiles[self.selected_profile_idx].copied();
        self.cps_text = decimal_string(self.active_profile.cps as u64);
        Some(profile)
    }

    /// Duplicate the active profile under its name followed by ` (Copy)`, as
    /// a new last entry; the caller stores it.
    pub fn duplicate_profile(&mut self)
        ensures
            final(self).profiles@.len() == old(self).profiles@.len() + 1,
            final(self).profiles@.drop_last() == old(self).profiles@,
            final(self).profiles@.last().name@ == old(self).active_profile.name@ + " (Copy)"@,
            crate::domain::profile::same_settings(
                final(self).profiles@.last(),
                old(self).active_profile,
            ),
            is_hyphenated_v4(final(self).profiles@.last().id@),
            *final(self) == (ViewModel { profiles: final(self).profiles, ..*old(self) }),
    {
        let mut name = self.active_profile.name.clone();
        name.append(" (Copy)");
        let dup = self.active_profile.duplicate(name);
        self.profiles.push(dup);
        assert(self.profiles@.drop_last() =~= old(self).profiles@);
    }

    /// Save the current active profile: it is stamped with the current time
    /// and replaces the selected entry of the list; the caller stores it.
    pub fn save_active_profile(&mut self)
        ensures
            final(self).active_profile == (ClickProfile {
                updated_at: final(self).active_profile.updated_at,
                ..old(self).active_profile
            }),
            old(self).selected_profile_idx < old(self).profiles@.len() ==> final(self).profiles@
                == old(self).profiles@.update(
                old(self).selected_profile_idx as int,
                final(self).active_profile,
            ),
            old(self).selected_profile_idx >= old(self).profiles@.len() ==> final(self).profiles
                == old(self).profiles,
            final(self).selected_profile_idx == old(self).selected_profile_idx,
            final(self).cps_text == old(self).cps_text,
            final(self).validation_error == old(self).validation_error,
            final(self).safety == old(self).safety,
    {
        self.active_profile.updated_at = utc_now();
        // Update in list
        if self.selected_profile_idx < self.profiles.len() {
            let copy = self.active_profile.copied();
            self.profiles.set(self.selected_profile_idx, copy);
        }
    }

    /// Refresh the status texts from the engine's state and, when the engine
    /// has a session, that session's stop reason: the reason's text, or
    /// nothing when the session has none. Without a session the stop-reason
    /// text is kept.
    pub fn refresh_status(&mut self, state: RunState, session_stop_reason: Option<Option<StopReason>>)
        ensures
            final(self).status_text@ == state.spec_display_text(),
            match session_stop_reason {
                Some(Some(reason)) => final(self).stop_reason_text@ == reason.spec_display_text(),
                Some(None) => final(self).stop_reason_text@.len() == 0,
                None => final(self).stop_reason_text == old(self).stop_reason_text,
            },
            *final(self) == (ViewModel {
                status_text: final(self).status_text,
                stop_reason_text: final(self).stop_reason_text,
                ..*old(self)
            }),
    {
        self.status_text = state.display_text();
        match session_stop_reason {
            Some(Some(reason)) => {
                self.stop_reason_text = reason.display_text();
            },
            Some(None) => {
                self.stop_reason_text = String::new();
            },
            None => {},
        }
    }

    /// Parse the CPS text into the active profile and validate it. A text
    /// that is not a `u32` is reported as such and leaves the profile alone;
    /// otherwise the validation outcome sets or clears the error text.
    /// Returns whether the profile is valid.
    pub fn validate_and_update(&mut self) -> (ok: bool)
        ensures
            final(self).profiles == old(self).profiles,
            final(self).selected_profile_idx == old(self).selected_profile_idx,
            final(self).cps_text == old(self).cps_text,
            final(self).safety == old(self).safety,
            match parsed_u32(old(self).cps_text@) {
                None => {
                    &&& !ok
                    &&& final(self).active_profile == old(self).active_profile
                    &&& (final(self).validation_error matches Some(m) && m@
                        == cps_not_a_number_text())
                },
                Some(cps) => {
                    &&& final(self).active_profile == (ClickProfile {
                        cps: cps,
                        ..old(self).active_profile
                    })
                    &&& ok == (validation_failure(final(self).active_profile) is None)
                    &&& ok ==> final(self).validation_error is None
                    &&& !ok ==> (final(self).validation_error matches Some(m) && m@
                        == validation_message(validation_failure(final(self).active_profile)->0))
                },
            },
    {
        // Parse CPS from text field
        match parse_u32(self.cps_text.as_str()) {
            Some(cps) => {
                self.active_profile.cps = cps;
            },
            None => {
                self.validation_error = Some(
                    String::from_str("CPS must be a number between 1 and 50"),
                );
                return false;
            },
        }
        match self.active_profile.validate() {
            Ok(()) => {
                self.validation_error = None;
                true
            },
            Err(e) => {
                self.validation_error = Some(e.message());
                false
            },
        }
    }
}

/// The whole seconds a run has been going, `now_unix` seconds since the
/// epoch for a run started at `started_unix` (0 for a clock that went back).
pub open spec fn run_elapsed_secs(started_unix: i64, now_unix: i64) -> int {
    if now_unix > started_unix {
        now_unix - started_unix
    } else {
        0
    }
}

/// The seconds left before an enabled stop-after timer ends a run: the
/// timer's seconds less the time elapsed, and 0 once they have passed (or
/// when no seconds are set).
pub open spec fn auto_stop_remaining(
    stop_after_seconds: Option<u32>,
    started_unix: i64,
    now_unix: i64,
) -> int {
    match stop_after_seconds {
        Some(secs) => if run_elapsed_secs(started_unix, now_unix) >= secs {
            0
        } else {
            secs - run_elapsed_secs(started_unix, now_unix)
        },
        None => 0,
    }
}

/// The countdown shown while a run with a stop-after timer goes on; see
/// `auto_stop_remaining`.
pub fn auto_stop_remaining_secs(stop_after_seconds: Option<u32>, started_unix: i64, now_unix: i64) -> (r: u32)
    ensures
        r == auto_stop_remaining(stop_after_seconds, started_unix, now_unix),
{
    let secs = match stop_after_seconds {
        Some(secs) => secs,
        None => {
            return 0;
        },
    };
    let elapsed: i128 = if now_unix > started_unix {
        now_unix as i128 - started_unix as i128
    } else {
        0
    };
    if elapsed >= secs as i128 {
        0
    } else {
        (secs as i128 - elapsed) as u32
    }
}

} // verus!
