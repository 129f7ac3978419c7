//! The watcher's side of a session: which of its concurrent tasks ends the
//! session, and what is stopped then.
use vstd::prelude::*;

use crate::network::transport::StreamingEvent;

verus! {

/// Connects the watcher to the streamer's events socket; the connecting
/// itself is network I/O and is done by the application.
pub struct StreamingEventsSocketClient;

/// The tasks a watching session runs side by side.
#[derive(Debug, Clone, Copy, PartialEq, Eq, Structural)]
pub enum SessionTask {
    /// Reads the streamer's events.
    StreamingEvents,
    /// Watches the receiving pipeline's bus.
    PipelineBus,
    /// Reads the front end's events.
    FrontendEvents,
}

/// An event from the streamer ends the watching session exactly when the
/// streamer ends the stream; other events are logged and ignored.
pub fn server_event_ends_watch(event: StreamingEvent) -> (ends: bool)
    ensures
        ends == (event == StreamingEvent::ServerEndsStream),
{
    match event {
        StreamingEvent::ServerEndsStream => true,
        _ => false,
    }
}

/// An event from the front end ends the watching session exactly when the
/// user quits; other events are logged and ignored.
pub fn frontend_event_ends_watch(event: StreamingEvent) -> (ends: bool)
    ensures
        ends == (event == StreamingEvent::ClientQuit),
{
    match event {
        StreamingEvent::ClientQuit => true,
        _ => false,
    }
}

pub open spec fn spec_tasks_to_abort(finished: SessionTask) -> Seq<SessionTask> {
    match finished {
        SessionTask::StreamingEvents => seq![
            SessionTask::PipelineBus,
            SessionTask::FrontendEvents,
        ],
        SessionTask::PipelineBus => seq![
            SessionTask::StreamingEvents,
            SessionTask::FrontendEvents,
        ],
        SessionTask::FrontendEvents => seq![
            SessionTask::StreamingEvents,
            SessionTask::PipelineBus,
        ],
    }
}

/// When one task of the session finishes, the other two are aborted, in
/// this order.
pub fn tasks_to_abort(finished: SessionTask) -> (tasks: Vec<SessionTask>)
    ensures
        tasks@ == spec_tasks_to_abort(finished),
{
    let mut tasks: Vec<SessionTask> = Vec::new();
    match finished {
        SessionTask::StreamingEvents => {
            tasks.push(SessionTask::PipelineBus);
            tasks.push(SessionTask::FrontendEvents);
        },
        SessionTask::PipelineBus => {
            tasks.push(SessionTask::StreamingEvents);
            tasks.push(SessionTask::FrontendEvents);
        },
        SessionTask::FrontendEvents => {
            tasks.push(SessionTask::StreamingEvents);
            tasks.push(SessionTask::PipelineBus);
        },
    }
    assert(tasks@ =~= spec_tasks_to_abort(finished));
    tasks
}

/// Whatever task ends a session, every other task is stopped and the one
/// that ended is not stopped again.
pub proof fn law_session_end_stops_the_rest(finished: SessionTask, t: SessionTask)
    ensures
        spec_tasks_to_abort(finished).contains(t) <==> t != finished,
{
    let s = spec_tasks_to_abort(finished);
    if t != finished {
        match finished {
            SessionTask::StreamingEvents => {
                if t == SessionTask::PipelineBus {
                    assert(s[0] == t);
                } else {
                    assert(s[1] == t);
                }
            },
            SessionTask::PipelineBus => {
                if t == SessionTask::StreamingEvents {
                    assert(s[0] == t);
                } else {
                    assert(s[1] == t);
                }
            },
            SessionTask::FrontendEvents => {
                if t == SessionTask::StreamingEvents {
                    assert(s[0] == t);
                } else {
                    assert(s[1] == t);
                }
            },
        }
    }
}

} // verus!
