use vstd::prelude::*;

verus! {

/// One observation of the PTY reader loop's cycle, gathered in this
/// priority order: the cancel signal first, then the process, then the
/// bounded read of the PTY controller's output.
pub enum ReaderEvent {
    /// The session's one-shot cancel signal has fired.
    CancelFired,
    /// The shell process has already exited on its own.
    ChildExited,
    /// A bounded read from the PTY controller returned these bytes; a
    /// zero-length read means the PTY is closed.
    Read { chunk: Vec<u8> },
    /// The bounded wait elapsed with nothing to read, so cancellation and
    /// exit can be re-checked without delay.
    NoData,
    /// The read failed: the PTY is closed.
    ReadFailed,
}

/// What the reader loop must do with one observation.
pub enum ReaderAction {
    /// Forcibly terminate the underlying process, then leave the loop.
    KillProcessAndStop,
    /// Leave the loop; the process is reaped afterwards.
    Stop,
    /// Append exactly these bytes to the session's output buffer, under its
    /// lock, and go on.
    Append { chunk: Vec<u8> },
    /// Nothing happened; go on with the next cycle.
    Continue,
}

/// One decision of the PTY reader loop, the background task that pumps a
/// session's output for that session's whole lifetime. Cancellation wins
/// over exit, exit over reading; a closed PTY — a zero-length read or a
/// read error — ends the loop; output is appended to the buffer unchanged.
/// Registry membership is never touched here: removal stays CloseSession's
/// alone, also when the loop ends because the shell exited on its own.
pub fn reader_step(ev: ReaderEvent) -> (r: ReaderAction)
    ensures
        ev is CancelFired ==> r is KillProcessAndStop,
        ev is ChildExited ==> r is Stop,
        ev matches ReaderEvent::Read { chunk } ==> (if chunk@.len() == 0 {
            r is Stop
        } else {
            r matches ReaderAction::Append { chunk: c } && c@ == chunk@
        }),
        ev is NoData ==> r is Continue,
        ev is ReadFailed ==> r is Stop,
{
    match ev {
        ReaderEvent::CancelFired => ReaderAction::KillProcessAndStop,
        ReaderEvent::ChildExited => ReaderAction::Stop,
        ReaderEvent::Read { chunk } => {
            if chunk.len() == 0 {
                ReaderAction::Stop
            } else {
                ReaderAction::Append { chunk }
            }
        },
        ReaderEvent::NoData => ReaderAction::Continue,
        ReaderEvent::ReadFailed => ReaderAction::Stop,
    }
}

} // verus!
