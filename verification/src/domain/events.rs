use crate::infra::clock::{utc_now, Timestamp};
use crate::text::{decimal_string, decimal_text};
use vstd::prelude::*;
use vstd::string::StringExecFns;

verus! {

// ── Event Level ───────────────────────────────────────────────────────────────

/// Severity of a logged event.
#[derive(Debug, Clone, Copy, PartialEq, Eq, Structural)]
pub enum EventLevel {
    Debug,
    Info,
    Warn,
    Error,
}

impl EventLevel {
    pub open spec fn spec_display_text(self) -> Seq<char> {
        match self {
            EventLevel::Debug => "DEBUG"@,
            EventLevel::Info => "INFO"@,
            EventLevel::Warn => "WARN"@,
            EventLevel::Error => "ERROR"@,
        }
    }

    /// Upper-case name of the level, as written in the log.
    pub fn display_text(&self) -> (s: String)
        ensures
            s@ == self.spec_display_text(),
    {
        match self {
            EventLevel::Debug => String::from_str("DEBUG"),
            EventLevel::Info => String::from_str("INFO"),
            EventLevel::Warn => String::from_str("WARN"),
            EventLevel::Error => String::from_str("ERROR"),
        }
    }
}

// ── Event Record ──────────────────────────────────────────────────────────────

/// One entry of the event log. `metadata` is a set of key/value pairs in
/// which no key occurs twice.
#[derive(Debug, Clone)]
pub struct EventRecord {
    pub timestamp: Timestamp,
    pub level: EventLevel,
    pub event_type: String,
    pub message: String,
    pub metadata: Vec<(String, String)>,
}

/// The metadata entries, taken by their characters.
pub open spec fn metadata_view(m: Seq<(String, String)>) -> Seq<(Seq<char>, Seq<char>)> {
    m.map_values(|e: (String, String)| (e.0@, e.1@))
}

/// No key occurs twice among the metadata entries.
pub open spec fn keys_unique(m: Seq<(Seq<char>, Seq<char>)>) -> bool {
    forall|i: int, j: int| 0 <= i < j < m.len() ==> #[trigger] m[i].0 != #[trigger] m[j].0
}

/// The metadata after setting `key` to `value`: the entry with that key is
/// replaced in place, or a new entry is appended when there is none.
pub open spec fn metadata_insert(m: Seq<(Seq<char>, Seq<char>)>, key: Seq<char>, value: Seq<char>) -> Seq<
    (Seq<char>, Seq<char>),
> {
    if exists|i: int| 0 <= i < m.len() && #[trigger] m[i].0 == key {
        m.update(choose|i: int| 0 <= i < m.len() && #[trigger] m[i].0 == key, (key, value))
    } else {
        m.push((key, value))
    }
}

/// `b` holds the same event as `a`, field by field.
pub open spec fn same_event(a: EventRecord, b: EventRecord) -> bool {
    &&& a.timestamp == b.timestamp
    &&& a.level == b.level
    &&& a.event_type@ == b.event_type@
    &&& a.message@ == b.message@
    &&& metadata_view(a.metadata@) == metadata_view(b.metadata@)
}

/// The event has the given level, type and message, and exactly the given
/// metadata entries.
pub open spec fn event_is(
    e: EventRecord,
    level: EventLevel,
    event_type: Seq<char>,
    message: Seq<char>,
    metadata: Seq<(Seq<char>, Seq<char>)>,
) -> bool {
    &&& e.level == level
    &&& e.event_type@ == event_type
    &&& e.message@ == message
    &&& metadata_view(e.metadata@) == metadata
}

impl EventRecord {
    /// A new event stamped with the current time and no metadata.
    pub fn new(level: EventLevel, event_type: String, message: String) -> (e: Self)
        ensures
            e.level == level,
            e.event_type == event_type,
            e.message == message,
            e.metadata@.len() == 0,
            metadata_view(e.metadata@) == Seq::<(Seq<char>, Seq<char>)>::empty(),
    {
        let e = EventRecord {
            timestamp: utc_now(),
            level,
            event_type,
            message,
            metadata: Vec::new(),
        };
        assert(metadata_view(e.metadata@) =~= Seq::<(Seq<char>, Seq<char>)>::empty());
        e
    }

    /// Set metadata `key` to `value`, replacing an entry with the same key.
    pub fn with_metadata(self, key: String, value: String) -> (e: Self)
        requires
            keys_unique(metadata_view(self.metadata@)),
        ensures
            e.timestamp == self.timestamp,
            e.level == self.level,
            e.event_type == self.event_type,
            e.message == self.message,
            metadata_view(e.metadata@) == metadata_insert(
                metadata_view(self.metadata@),
                key@,
                value@,
            ),
            keys_unique(metadata_view(e.metadata@)),
    {
        let ghost old_m = metadata_view(self.metadata@);
        let n = self.metadata.len();
        let mut i: usize = 0;
        while i < n && self.metadata[i].0 != key
            invariant
                n == self.metadata@.len(),
                old_m == metadata_view(self.metadata@),
                i <= n,
                forall|j: int| 0 <= j < i ==> #[trigger] old_m[j].0 != key@,
            decreases n - i,
        {
            i = i + 1;
        }
        let mut s = self;
        if i < n {
            proof {
                assert(old_m[i as int].0 == key@);
                let c = choose|j: int| 0 <= j < old_m.len() && #[trigger] old_m[j].0 == key@;
                if c != i {
                    if c < i {
                        assert(old_m[c].0 != key@);
                    } else {
                        assert(old_m[i as int].0 != old_m[c].0);
                    }
                }
            }
            s.metadata.set(i, (key, value));
            proof {
                let m2 = metadata_view(s.metadata@);
                assert(m2 =~= old_m.update(i as int, (key@, value@)));
                assert forall|a: int, b: int| 0 <= a < b < m2.len() implies #[trigger] m2[a].0
                    != #[trigger] m2[b].0 by {
                    if a == i {
                        assert(old_m[b].0 != old_m[a].0);
                    } else if b == i {
                        assert(old_m[a].0 != old_m[b].0);
                    } else {
                        assert(old_m[a].0 != old_m[b].0);
                    }
                }
            }
        } else {
            s.metadata.push((key, value));
            proof {
                let m2 = metadata_view(s.metadata@);
                assert(m2 =~= old_m.push((key@, value@)));
                assert forall|a: int, b: int| 0 <= a < b < m2.len() implies #[trigger] m2[a].0
                    != #[trigger] m2[b].0 by {
                    if b == old_m.len() {
                        assert(old_m[a].0 != key@);
                    } else {
                        assert(old_m[a].0 != old_m[b].0);
                    }
                }
            }
        }
        s
    }

    /// A field-by-field copy of the event.
    pub fn copy_record(&self) -> (e: Self)
        ensures
            same_event(*self, e),
    {
        let mut metadata: Vec<(String, String)> = Vec::new();
        let n = self.metadata.len();
        let mut i: usize = 0;
        while i < n
            invariant
                n == self.metadata@.len(),
                i <= n,
                metadata@.len() == i,
                metadata_view(metadata@) =~= metadata_view(self.metadata@).subrange(0, i as int),
            decreases n - i,
        {
            let entry = &self.metadata[i];
            let k = entry.0.clone();
            let v = entry.1.clone();
            metadata.push((k, v));
            proof {
                let old_v = metadata_view(self.metadata@);
                assert(metadata_view(metadata@)[i as int] == old_v[i as int]);
                assert(metadata_view(metadata@) =~= old_v.subrange(0, i + 1));
            }
            i = i + 1;
        }
        proof {
            assert(metadata_view(self.metadata@).subrange(0, n as int) =~= metadata_view(
                self.metadata@,
            ));
        }
        EventRecord {
            timestamp: self.timestamp,
            level: self.level,
            event_type: self.event_type.clone(),
            message: self.message.clone(),
            metadata,
        }
    }

    // ── Convenience constructors ──────────────────────────────────────────

    pub fn run_started(profile_id: &str, cps: u32) -> (e: Self)
        ensures
            event_is(
                e,
                EventLevel::Info,
                "run_started"@,
                "Run started with CPS="@ + decimal_text(cps as nat),
                seq![("profile_id"@, profile_id@), ("cps"@, decimal_text(cps as nat))],
            ),
    {
        let mut message = String::from_str("Run started with CPS=");
        let cps_text = decimal_string(cps as u64);
        message.append(cps_text.as_str());
        let e = Self::new(EventLevel::Info, String::from_str("run_started"), message);
        let e = e.with_metadata(String::from_str("profile_id"), String::from_str(profile_id));
        proof {
            reveal_strlit("profile_id");
            reveal_strlit("cps");
            assert("profile_id"@.len() == 10);
            assert("cps"@.len() == 3);
            assert(metadata_view(e.metadata@)[0].0 != "cps"@);
        }
        let e = e.with_metadata(String::from_str("cps"), cps_text);
        assert(metadata_view(e.metadata@) =~= seq![
            ("profile_id"@, profile_id@),
            ("cps"@, decimal_text(cps as nat)),
        ]);
        e
    }

    pub fn run_stopped(reason: &str) -> (e: Self)
        ensures
            event_is(
                e,
                EventLevel::Info,
                "run_stopped"@,
                "Run stopped: "@ + reason@,
                seq![("stop_reason"@, reason@)],
            ),
    {
        let mut message = String::from_str("Run stopped: ");
        message.append(reason);
        let e = Self::new(EventLevel::Info, String::from_str("run_stopped"), message);
        e.with_metadata(String::from_str("stop_reason"), String::from_str(reason))
    }

    pub fn panic_stop() -> (e: Self)
        ensures
            event_is(e, EventLevel::Warn, "panic_stop"@, "Panic stop triggered"@, seq![]),
    {
        Self::new(
            EventLevel::Warn,
            String::from_str("panic_stop"),
            String::from_str("Panic stop triggered"),
        )
    }

    pub fn validation_error(message: &str) -> (e: Self)
        ensures
            event_is(e, EventLevel::Error, "validation_error"@, message@, seq![]),
    {
        Self::new(
            EventLevel::Error,
            String::from_str("validation_error"),
            String::from_str(message),
        )
    }

    pub fn condition_waiting(condition: &str) -> (e: Self)
        ensures
            event_is(
                e,
                EventLevel::Info,
                "condition_waiting"@,
                "Waiting for condition: "@ + condition@,
                seq![],
            ),
    {
        let mut message = String::from_str("Waiting for condition: ");
        message.append(condition);
        Self::new(EventLevel::Info, String::from_str("condition_waiting"), message)
    }

    pub fn condition_met(condition: &str) -> (e: Self)
        ensures
            event_is(
                e,
                EventLevel::Info,
                "condition_met"@,
                "Condition satisfied: "@ + condition@,
                seq![],
            ),
    {
        let mut message = String::from_str("Condition satisfied: ");
        message.append(condition);
        Self::new(EventLevel::Info, String::from_str("condition_met"), message)
    }

    pub fn timed_stop(duration_secs: u32) -> (e: Self)
        ensures
            event_is(
                e,
                EventLevel::Info,
                "timed_stop"@,
                "Auto-stopped after "@ + decimal_text(duration_secs as nat) + "s"@,
                seq![("duration_seconds"@, decimal_text(duration_secs as nat))],
            ),
    {
        let secs = decimal_string(duration_secs as u64);
        let mut message = String::from_str("Auto-stopped after ");
        message.append(secs.as_str());
        message.append("s");
        let e = Self::new(EventLevel::Info, String::from_str("timed_stop"), message);
        e.with_metadata(String::from_str("duration_seconds"), secs)
    }

    pub fn profile_created(name: &str) -> (e: Self)
        ensures
            event_is(
                e,
                EventLevel::Info,
                "profile_created"@,
                "Profile created: "@ + name@,
                seq![],
            ),
    {
        let mut message = String::from_str("Profile created: ");
        message.append(name);
        Self::new(EventLevel::Info, String::from_str("profile_created"), message)
    }

    pub fn profile_switched(name: &str) -> (e: Self)
        ensures
            event_is(
                e,
                EventLevel::Info,
                "profile_switched"@,
                "Switched to profile: "@ + name@,
                seq![],
            ),
    {
        let mut message = String::from_str("Switched to profile: ");
        message.append(name);
        Self::new(EventLevel::Info, String::from_str("profile_switched"), message)
    }

    pub fn profile_deleted(name: &str) -> (e: Self)
        ensures
            event_is(
                e,
                EventLevel::Info,
                "profile_deleted"@,
                "Profile deleted: "@ + name@,
                seq![],
            ),
    {
        let mut message = String::from_str("Profile deleted: ");
        message.append(name);
        Self::new(EventLevel::Info, String::from_str("profile_deleted"), message)
    }

    pub fn max_session_reached(seconds: u32) -> (e: Self)
        ensures
            event_is(
                e,
                EventLevel::Warn,
                "max_session_reached"@,
                "Max session duration reached: "@ + decimal_text(seconds as nat) + "s"@,
                seq![],
            ),
    {
        let mut message = String::from_str("Max session duration reached: ");
        let secs = decimal_string(seconds as u64);
        message.append(secs.as_str());
        message.append("s");
        Self::new(EventLevel::Warn, String::from_str("max_session_reached"), message)
    }

    pub fn cooldown_blocked(remaining_secs: u32) -> (e: Self)
        ensures
            event_is(
                e,
                EventLevel::Warn,
                "cooldown_blocked"@,
                "Cooldown active, "@ + decimal_text(remaining_secs as nat) + "s remaining"@,
                seq![],
            ),
    {
        let mut message = String::from_str("Cooldown active, ");
        let secs = decimal_string(remaining_secs as u64);
        message.append(secs.as_str());
        message.append("s remaining");
        Self::new(EventLevel::Warn, String::from_str("cooldown_blocked"), message)
    }

    pub fn focus_lost() -> (e: Self)
        ensures
            event_is(
                e,
                EventLevel::Info,
                "focus_lost"@,
                "Target window lost focus — pausing clicks"@,
                seq![],
            ),
    {
        Self::new(
            EventLevel::Info,
            String::from_str("focus_lost"),
            String::from_str("Target window lost focus — pausing clicks"),
        )
    }

    pub fn focus_regained() -> (e: Self)
        ensures
            event_is(
                e,
                EventLevel::Info,
                "focus_regained"@,
                "Target window regained focus — resuming clicks"@,
                seq![],
            ),
    {
        Self::new(
            EventLevel::Info,
            String::from_str("focus_regained"),
            String::from_str("Target window regained focus — resuming clicks"),
        )
    }

    pub fn engine_error(message: &str) -> (e: Self)
        ensures
            event_is(e, EventLevel::Error, "engine_error"@, message@, seq![]),
    {
        Self::new(EventLevel::Error, String::from_str("engine_error"), String::from_str(message))
    }
}

} // verus!
