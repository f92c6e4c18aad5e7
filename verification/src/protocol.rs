use vstd::prelude::*;

verus! {

/// One request of the wire protocol. On the wire each variant is a single
/// JSON document discriminated by its `action` field; the transport layer
/// turns the document into this closed sum type before dispatch.
#[derive(Debug)]
pub enum AgentRequest {
    StartSession { user: Option<String> },
    ExecCommand { session_id: String, command: String, timeout_ms: u64 },
    CloseSession { session_id: String },
}

/// The uniform response envelope sent back for every request.
///
/// `exit_code` is always absent in this protocol; the field is kept in the
/// schema for forward compatibility.
#[derive(Debug)]
pub struct AgentResponse {
    pub success: bool,
    pub session_id: Option<String>,
    pub output: String,
    pub exit_code: Option<i32>,
    pub error: Option<String>,
}

/// The failure envelope returned whenever an operation names a session id
/// that the registry does not hold.
pub open spec fn is_not_found_response(r: AgentResponse, id: Seq<char>) -> bool {
    &&& !r.success
    &&& r.session_id matches Some(s) && s@ == id
    &&& r.output@ == Seq::<char>::empty()
    &&& r.exit_code is None
    &&& r.error matches Some(e) && e@ == "session not found"@
}

/// The success envelope of StartSession, carrying the fresh session id.
pub open spec fn is_started_response(r: AgentResponse, id: Seq<char>) -> bool {
    &&& r.success
    &&& r.session_id matches Some(s) && s@ == id
    &&& r.output@ == "Session started"@
    &&& r.exit_code is None
    &&& r.error is None
}

/// The failure envelope of StartSession when the PTY allocation or the
/// shell spawn failed; nothing was registered.
pub open spec fn is_spawn_failed_response(r: AgentResponse, error: Seq<char>) -> bool {
    &&& !r.success
    &&& r.session_id is None
    &&& r.output@ == Seq::<char>::empty()
    &&& r.exit_code is None
    &&& r.error matches Some(e) && e@ == "Failed to spawn shell: "@ + error
}

/// The success envelope of CloseSession.
pub open spec fn is_closed_response(r: AgentResponse, id: Seq<char>) -> bool {
    &&& r.success
    &&& r.session_id matches Some(s) && s@ == id
    &&& r.output@ == "Session closed"@
    &&& r.exit_code is None
    &&& r.error is None
}

/// The failure envelope of ExecCommand when the session's input sink could
/// not be written: the shell process is gone, but the session stays in the
/// registry until it is closed explicitly.
pub open spec fn is_write_failed_response(r: AgentResponse, id: Seq<char>, error: Seq<char>) -> bool {
    &&& !r.success
    &&& r.session_id matches Some(s) && s@ == id
    &&& r.output@ == Seq::<char>::empty()
    &&& r.exit_code is None
    &&& r.error matches Some(e) && e@ == "Failed to write to pty: "@ + error
}

/// The success envelope of ExecCommand. A timeout is not an error: whatever
/// was gathered, including nothing at all, is returned this way.
pub open spec fn is_exec_response(r: AgentResponse, id: Seq<char>, output: Seq<char>) -> bool {
    &&& r.success
    &&& r.session_id matches Some(s) && s@ == id
    &&& r.output@ == output
    &&& r.exit_code is None
    &&& r.error is None
}

} // verus!
