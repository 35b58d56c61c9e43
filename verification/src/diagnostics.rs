//! PeerConnection lifecycle logging for webrtc-direct interop debugging.
//!
//! All events use `target: "libp2p_webrtc_mux"` so one `RUST_LOG` filter covers native + WASM.
use vstd::prelude::*;

use crate::interop::host_log::{append_field, law_fields_are_appended, with_field, Level};
use crate::text::{begins_with, ends_with};

verus! {

/// The target of every event.
pub const TARGET: &'static str = "libp2p_webrtc_mux";

/// An event to log.
#[derive(Debug, PartialEq, Eq)]
pub struct Record {
    pub level: Level,
    pub message: &'static str,
    /// The fields of the event, as `name=value` with spaces between.
    pub fields: String,
}

impl Record {
    /// The record is this.
    pub open spec fn is(self, level: Level, message: Seq<char>, fields: Seq<char>) -> bool {
        self.level == level && self.message@ == message && self.fields@ == fields
    }
}

/// What changed about a peer connection.
#[derive(Clone, Copy, Debug, PartialEq, Eq, Structural)]
pub enum Change {
    Signaling,
    IceConnection,
    Connection,
}

/// The states of a peer connection, in their textual form.
#[derive(Debug, PartialEq, Eq)]
pub struct States {
    pub signaling_state: String,
    pub ice_connection_state: String,
    pub connection_state: String,
    pub sctp_state: String,
}

/// What is said of a change.
pub open spec fn change_text(change: Change) -> Seq<char> {
    match change {
        Change::Signaling => "PeerConnection signaling state"@,
        Change::IceConnection => "PeerConnection ICE connection state"@,
        Change::Connection => "PeerConnection connection state"@,
    }
}

/// The event of a peer connection that changed its state.
pub fn state_change(role: &str, change: Change, state: &str) -> (r: Record)
    ensures
        r.is(
            Level::Debug,
            change_text(change),
            with_field(with_field(""@, "role"@, role@), "state"@, state@),
        ),
{
    let mut fields = "".to_owned();
    append_field(&mut fields, "role", role);
    append_field(&mut fields, "state", state);
    let message = match change {
        Change::Signaling => "PeerConnection signaling state",
        Change::IceConnection => "PeerConnection ICE connection state",
        Change::Connection => "PeerConnection connection state",
    };
    Record { level: Level::Debug, message, fields }
}

/// The event of a failure of the SCTP transport.
pub fn sctp_error(role: &str, error: &str) -> (r: Record)
    ensures
        r.is(
            Level::Error,
            "SCTP transport error"@,
            with_field(with_field(""@, "role"@, role@), "error"@, error@),
        ),
{
    let mut fields = "".to_owned();
    append_field(&mut fields, "role", role);
    append_field(&mut fields, "error", error);
    Record { level: Level::Error, message: "SCTP transport error", fields }
}

/// One-line snapshot of PC + SCTP state at an upgrade milestone.
pub fn log_upgrade_step(role: &str, step: &str, states: &States) -> (r: Record)
    ensures
        r.is(
            Level::Debug,
            "upgrade milestone"@,
            with_field(
                with_field(
                    with_field(
                        with_field(
                            with_field(with_field(""@, "role"@, role@), "step"@, step@),
                            "signaling_state"@,
                            states.signaling_state@,
                        ),
                        "ice_connection_state"@,
                        states.ice_connection_state@,
                    ),
                    "connection_state"@,
                    states.connection_state@,
                ),
                "sctp_state"@,
                states.sctp_state@,
            ),
        ),
{
    let mut fields = "".to_owned();
    append_field(&mut fields, "role", role);
    append_field(&mut fields, "step", step);
    append_field(&mut fields, "signaling_state", states.signaling_state.as_str());
    append_field(&mut fields, "ice_connection_state", states.ice_connection_state.as_str());
    append_field(&mut fields, "connection_state", states.connection_state.as_str());
    append_field(&mut fields, "sctp_state", states.sctp_state.as_str());
    Record { level: Level::Debug, message: "upgrade milestone", fields }
}

/// Log SCTP association state when muxer polls (helps spot DCEP vs handler gaps); there is nothing
/// to tell while the peer connection is locked.
pub fn log_sctp_snapshot(context: &str, states: Option<&States>) -> (r: Record)
    ensures
        match states {
            None => r.is(
                Level::Trace,
                "SCTP snapshot skipped (peer_conn locked)"@,
                with_field(""@, "context"@, context@),
            ),
            Some(states) => r.is(
                Level::Trace,
                "SCTP snapshot"@,
                with_field(
                    with_field(
                        with_field(
                            with_field(""@, "context"@, context@),
                            "sctp_state"@,
                            states.sctp_state@,
                        ),
                        "connection_state"@,
                        states.connection_state@,
                    ),
                    "ice_connection_state"@,
                    states.ice_connection_state@,
                ),
            ),
        },
{
    let mut fields = "".to_owned();
    append_field(&mut fields, "context", context);
    match states {
        None => Record {
            level: Level::Trace,
            message: "SCTP snapshot skipped (peer_conn locked)",
            fields,
        },
        Some(states) => {
            append_field(&mut fields, "sctp_state", states.sctp_state.as_str());
            append_field(&mut fields, "connection_state", states.connection_state.as_str());
            append_field(&mut fields, "ice_connection_state", states.ice_connection_state.as_str());
            Record { level: Level::Trace, message: "SCTP snapshot", fields }
        },
    }
}

/// What is said of a change tells which one it was.
pub proof fn law_changes_are_told_apart(a: Change, b: Change)
    requires
        change_text(a) == change_text(b),
    ensures
        a == b,
{
    reveal_strlit("PeerConnection signaling state");
    reveal_strlit("PeerConnection ICE connection state");
    reveal_strlit("PeerConnection connection state");
    assert("PeerConnection signaling state"@.len() == 30);
    assert("PeerConnection ICE connection state"@.len() == 35);
    assert("PeerConnection connection state"@.len() == 31);
}

/// What is logged of a change, of a failure and of the states of a connection ends with the last of
/// what was to be told, and starts with the first; failures of SCTP are errors, snapshots are traces,
/// and the rest is for debugging.
pub proof fn law_records_tell_what_was_given(
    role: &str,
    change: Change,
    state: &str,
    changed: Record,
    error: &str,
    failed: Record,
    step: &str,
    states: &States,
    milestone: Record,
)
    requires
        call_ensures(state_change, (role, change, state), changed),
        call_ensures(sctp_error, (role, error), failed),
        call_ensures(log_upgrade_step, (role, step, states), milestone),
    ensures
        changed.level == Level::Debug,
        changed.message@ == change_text(change),
        ends_with(changed.fields@, "state"@ + seq!['='] + state@),
        begins_with(changed.fields@, "role"@ + seq!['='] + role@),
        failed.level == Level::Error,
        ends_with(failed.fields@, "error"@ + seq!['='] + error@),
        begins_with(failed.fields@, "role"@ + seq!['='] + role@),
        milestone.level == Level::Debug,
        ends_with(milestone.fields@, "sctp_state"@ + seq!['='] + states.sctp_state@),
{
    let first = with_field(""@, "role"@, role@);
    reveal_strlit("");
    law_fields_are_appended(""@, "role"@, role@);
    law_fields_are_appended(first, "state"@, state@);
    law_fields_are_appended(first, "error"@, error@);
    let m1 = with_field(first, "step"@, step@);
    let m2 = with_field(m1, "signaling_state"@, states.signaling_state@);
    let m3 = with_field(m2, "ice_connection_state"@, states.ice_connection_state@);
    let m4 = with_field(m3, "connection_state"@, states.connection_state@);
    law_fields_are_appended(m4, "sctp_state"@, states.sctp_state@);
}

/// A snapshot tells the states that there are to tell, behind the context; while the connection is
/// locked it tells the context alone.
pub proof fn law_snapshots_tell_the_context(
    context: &str,
    states: Option<&States>,
    r: Record,
)
    requires
        call_ensures(log_sctp_snapshot, (context, states), r),
    ensures
        r.level == Level::Trace,
        states is None ==> r.fields@ == "context"@ + seq!['='] + context@,
        states matches Some(told) ==> ends_with(
            r.fields@,
            "ice_connection_state"@ + seq!['='] + told.ice_connection_state@,
        ),
{
    reveal_strlit("");
    law_fields_are_appended(""@, "context"@, context@);
    if let Some(told) = states {
        let s1 = with_field(
            with_field(""@, "context"@, context@),
            "sctp_state"@,
            told.sctp_state@,
        );
        let s2 = with_field(s1, "connection_state"@, told.connection_state@);
        law_fields_are_appended(s2, "ice_connection_state"@, told.ice_connection_state@);
    }
}

} // verus!
