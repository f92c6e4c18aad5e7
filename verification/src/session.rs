use vstd::prelude::*;

use crate::protocol::{
    AgentRequest, AgentResponse, is_closed_response, is_exec_response, is_not_found_response,
    is_spawn_failed_response, is_started_response, is_write_failed_response,
};
use crate::registry::{Registry, SessionInfo};
use crate::text::{clean_output, cleaned_output, normalize_command, normalized};

verus! {

/// Relies on uuid::Uuid::new_v4 and its hyphenated rendering through
/// Display: a randomly generated identifier, 36 characters long. The value
/// is random, so nothing more holds of it.
#[verifier::external_body]
fn fresh_session_id() -> (r: String)
    ensures
        r@.len() == 36,
{
    uuid::Uuid::new_v4().to_string()
}

/// What the platform runtime reports of its attempt to allocate a PTY pair
/// and spawn a shell attached to its follower end.
pub enum SpawnOutcome {
    /// The shell is running; its input sink, output buffer and cancel signal
    /// are held by the runtime, to be filed under the id this call returns.
    Spawned,
    /// Allocation or spawn failed, with the platform's message.
    SpawnFailed { error: String },
}

/// What the dispatcher asks the platform runtime to do for one request.
pub enum Outcome {
    /// The response is ready; nothing outside the library is needed.
    Respond { response: AgentResponse },
    /// Allocate a PTY and spawn a shell for the given principal, then hand
    /// the result to `start_session`.
    Spawn { user: Option<String> },
    /// Run the capture procedure against the session's buffer: prepare with
    /// `exec_prepare`, drive a `Capture`, finish with `exec_finish`.
    Exec { session_id: String, command: String, timeout_ms: u64 },
    /// The session was removed: fire its cancel signal, release what the
    /// runtime holds for it, then send the response.
    Closed { session_id: String, response: AgentResponse },
}

/// The shell invocation for a new session on a POSIX platform: a plain
/// `bash` when no principal is named, and a `su - <user>` login wrapper —
/// which needs the PTY the session already provides — when one is. The
/// program and its arguments, in order.
pub fn shell_command_for(user: &Option<String>) -> (r: (String, Vec<String>))
    ensures
        user matches Some(u) ==> r.0@ == "su"@ && r.1@.len() == 2 && r.1@[0]@ == "-"@ && r.1@[1]@
            == u@,
        user is None ==> r.0@ == "bash"@ && r.1@.len() == 0,
{
    match user {
        Some(u) => {
            let mut args: Vec<String> = Vec::new();
            args.push(String::from_str("-"));
            args.push(u.clone());
            (String::from_str("su"), args)
        },
        None => (String::from_str("bash"), Vec::new()),
    }
}

/// The environment forced onto the spawned shell: a minimal terminal type
/// and an empty primary prompt, so the capture sees as few uncontrolled
/// escape sequences and prompt bytes as possible. Name and value, in the
/// order they are applied.
pub fn session_env() -> (r: Vec<(String, String)>)
    ensures
        r@.len() == 2,
        r@[0].0@ == "TERM"@ && r@[0].1@ == "dumb"@,
        r@[1].0@ == "PS1"@ && r@[1].1@ == Seq::<char>::empty(),
{
    let mut env: Vec<(String, String)> = Vec::new();
    env.push((String::from_str("TERM"), String::from_str("dumb")));
    env.push((String::from_str("PS1"), String::new()));
    env
}

/// The failure envelope for a request line that could not be parsed: the
/// connection is answered, not dropped, and the parser's message is carried
/// along for the caller.
pub fn invalid_request(error: String) -> (r: AgentResponse)
    ensures
        !r.success,
        r.session_id is None,
        r.output@ == Seq::<char>::empty(),
        r.exit_code is None,
        r.error matches Some(e) && e@ == "Invalid Request: "@ + error@,
{
    let mut msg = String::from_str("Invalid Request: ");
    msg.append(error.as_str());
    AgentResponse {
        success: false,
        session_id: None,
        output: String::new(),
        exit_code: None,
        error: Some(msg),
    }
}

/// The failure envelope for an unknown session id.
fn not_found(session_id: String) -> (r: AgentResponse)
    ensures
        is_not_found_response(r, session_id@),
{
    AgentResponse {
        success: false,
        session_id: Some(session_id),
        output: String::new(),
        exit_code: None,
        error: Some(String::from_str("session not found")),
    }
}

/// Registers a spawned session under the given id: the step of StartSession
/// that is decided by the registry alone. Succeeds, registering exactly this
/// session, if and only if the id is not already taken; on the collision an
/// id generator never produces in practice, nothing is registered.
pub fn register_session(reg: &mut Registry, id: String, user: Option<String>) -> (r:
    AgentResponse)
    requires
        old(reg).wf(),
    ensures
        final(reg).wf(),
        r.success == !old(reg)@.contains_key(id@),
        r.session_id matches Some(s) && s == id,
        r.success ==> final(reg)@ == old(reg)@.insert(id@, (SessionInfo { user }))
            && is_started_response(r, id@),
        !r.success ==> final(reg)@ == old(reg)@ && r.output@ == Seq::<char>::empty()
            && r.exit_code is None && (r.error matches Some(e) && e@ == "session id collision"@),
{
    let response_id = id.clone();
    let registered = reg.register(id, SessionInfo { user });
    if registered {
        AgentResponse {
            success: true,
            session_id: Some(response_id),
            output: String::from_str("Session started"),
            exit_code: None,
            error: None,
        }
    } else {
        AgentResponse {
            success: false,
            session_id: Some(response_id),
            output: String::new(),
            exit_code: None,
            error: Some(String::from_str("session id collision")),
        }
    }
}

/// Handles StartSession once the runtime has attempted the spawn: on
/// success, registers a fresh random id — atomically with spawn success, so
/// nothing is registered for a failed spawn — and returns it; on failure,
/// returns the failure envelope. The one unpromised case is a random id that
/// collides with a live one: then nothing is registered and the response is
/// a failure naming the collision.
pub fn start_session(reg: &mut Registry, user: Option<String>, spawn: SpawnOutcome) -> (r:
    AgentResponse)
    requires
        old(reg).wf(),
    ensures
        final(reg).wf(),
        spawn matches SpawnOutcome::SpawnFailed { error } ==> final(reg)@ == old(reg)@
            && is_spawn_failed_response(r, error@),
        spawn is Spawned ==> (r.session_id matches Some(id) && {
            &&& r.success == !old(reg)@.contains_key(id@)
            &&& r.success ==> final(reg)@ == old(reg)@.insert(id@, (SessionInfo { user }))
                && is_started_response(r, id@)
            &&& !r.success ==> final(reg)@ == old(reg)@ && r.output@ == Seq::<char>::empty()
                && r.exit_code is None && (r.error matches Some(e) && e@
                == "session id collision"@)
        }),
{
    match spawn {
        SpawnOutcome::Spawned => register_session(reg, fresh_session_id(), user),
        SpawnOutcome::SpawnFailed { error } => {
            let mut msg = String::from_str("Failed to spawn shell: ");
            msg.append(error.as_str());
            AgentResponse {
                success: false,
                session_id: None,
                output: String::new(),
                exit_code: None,
                error: Some(msg),
            }
        },
    }
}

/// Handles CloseSession: takes the session out of the registry and tells
/// the runtime, through the second component, whether a session was removed
/// and its cancel signal must be fired. An unknown id yields the failure
/// envelope and fires nothing.
pub fn close_session(reg: &mut Registry, session_id: String) -> (r: (AgentResponse, bool))
    requires
        old(reg).wf(),
    ensures
        final(reg).wf(),
        final(reg)@ == old(reg)@.remove(session_id@),
        r.1 == old(reg)@.contains_key(session_id@),
        old(reg)@.contains_key(session_id@) ==> is_closed_response(r.0, session_id@),
        !old(reg)@.contains_key(session_id@) ==> is_not_found_response(r.0, session_id@),
{
    let removed = reg.remove(&session_id);
    match removed {
        Some(_) => (
            AgentResponse {
                success: true,
                session_id: Some(session_id),
                output: String::from_str("Session closed"),
                exit_code: None,
                error: None,
            },
            true,
        ),
        None => (not_found(session_id), false),
    }
}

/// Begins ExecCommand: looks the session up and normalizes the command text
/// for the input sink. An unknown id — never issued, or already closed —
/// yields the failure envelope instead, whatever the command and timeout.
pub fn exec_prepare(reg: &Registry, session_id: &String, command: &String) -> (r: Result<
    String,
    AgentResponse,
>)
    ensures
        reg@.contains_key(session_id@) ==> (r matches Ok(c) && c@ == normalized(command@)),
        !reg@.contains_key(session_id@) ==> (r matches Err(resp) && is_not_found_response(
            resp,
            session_id@,
        )),
{
    if reg.contains(session_id) {
        Ok(normalize_command(command))
    } else {
        Err(not_found(session_id.clone()))
    }
}

/// The failure envelope when the session's input sink could not be written.
/// The session is deliberately left in the registry: closing it stays the
/// caller's responsibility.
pub fn exec_write_failed(session_id: String, error: String) -> (r: AgentResponse)
    ensures
        is_write_failed_response(r, session_id@, error@),
{
    let mut msg = String::from_str("Failed to write to pty: ");
    msg.append(error.as_str());
    AgentResponse {
        success: false,
        session_id: Some(session_id),
        output: String::new(),
        exit_code: None,
        error: Some(msg),
    }
}

/// Ends ExecCommand: cleans the captured bytes — control sequences
/// stripped, echoed command removed — and wraps the text in the success
/// envelope. A capture that saw nothing, a no-op within its timeout, is a
/// success with empty output; hitting the hard cutoff is not an error.
pub fn exec_finish(session_id: String, command: &String, captured: &Vec<u8>) -> (r: AgentResponse)
    ensures
        is_exec_response(r, session_id@, cleaned_output(captured@, command@)),
        captured@.len() == 0 ==> r.output@.len() == 0,
{
    let output = clean_output(captured, command);
    AgentResponse {
        success: true,
        session_id: Some(session_id),
        output,
        exit_code: None,
        error: None,
    }
}

/// Dispatches one parsed request against the registry. Requests that need
/// no outside work — CloseSession — are answered here; the others come back
/// as the outside step the runtime must take before the matching handler
/// finishes them.
pub fn process_request(reg: &mut Registry, req: AgentRequest) -> (r: Outcome)
    requires
        old(reg).wf(),
    ensures
        final(reg).wf(),
        req matches AgentRequest::StartSession { user } ==> final(reg)@ == old(reg)@ && (
        r matches Outcome::Spawn { user: u } && u == user),
        req matches AgentRequest::ExecCommand { session_id, command, timeout_ms } ==> final(reg)@
            == old(reg)@ && (r matches Outcome::Exec { session_id: s, command: c, timeout_ms: t }
            && s == session_id && c == command && t == timeout_ms),
        req matches AgentRequest::CloseSession { session_id } ==> {
            &&& final(reg)@ == old(reg)@.remove(session_id@)
            &&& old(reg)@.contains_key(session_id@) ==> (r matches Outcome::Closed {
                session_id: s,
                response,
            } && s == session_id && is_closed_response(response, session_id@))
            &&& !old(reg)@.contains_key(session_id@) ==> (r matches Outcome::Respond { response }
                && is_not_found_response(response, session_id@))
        },
{
    match req {
        AgentRequest::StartSession { user } => Outcome::Spawn { user },
        AgentRequest::ExecCommand { session_id, command, timeout_ms } => Outcome::Exec {
            session_id,
            command,
            timeout_ms,
        },
        AgentRequest::CloseSession { session_id } => {
            let id = session_id.clone();
            let result = close_session(reg, session_id);
            if result.1 {
                Outcome::Closed { session_id: id, response: result.0 }
            } else {
                Outcome::Respond { response: result.0 }
            }
        },
    }
}

} // verus!
