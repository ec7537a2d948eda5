//! What holds of the engine as a whole: laws that relate its operations,
//! each proved from the definitions of the operations.

use crate::command::{
    interactive_programs, is_clear, is_directory_change, is_interactive, is_interactive_text,
    runs_program,
};
use crate::dispatcher::{
    clear_answer, command_step, directory_after, exit_status, timeout_marker, ActionView, EventView,
    RunPhase, RunView,
};
use crate::docker_vm::{is_sweep, provisioned, ProvisioningView};
use crate::error::ErrorView;
use crate::paths::{
    is_above_home, lemma_home_segments, lemma_segments_are_segments, lemma_segments_of_joined,
    parent_of, path_segments,
};
use crate::relay::interactive_step;
use crate::session::{SessionView, Timestamp, NANOS_PER_MINUTE};
use crate::store::{registry_step, registry_wf};
use vstd::prelude::*;

verus! {

/// A run for a session that the registry does not hold fails with
/// `SessionNotFound` at its first poll, whatever the command, and changes
/// nothing. This holds of the interactive variant too.
pub proof fn law_absent_session_is_not_found(
    run: RunView,
    sessions: Map<Seq<char>, SessionView>,
    event: EventView,
    now: Timestamp,
)
    requires
        run.phase == RunPhase::Waiting,
        !sessions.contains_key(run.session_id),
    ensures
        command_step(run, sessions, event, now).action == ActionView::Done(
            Err(ErrorView::SessionNotFound(run.session_id)),
        ),
        command_step(run, sessions, event, now).sessions == sessions,
        interactive_step(run, sessions, event, now).action == ActionView::Done(
            Err(ErrorView::SessionNotFound(run.session_id)),
        ),
        interactive_step(run, sessions, event, now).sessions == sessions,
{
}

/// A session whose provisioning failed is in the status `Error`, and a run
/// for it fails with `SessionFailed` at its first poll: no action of the
/// runtime is asked for, and nothing changes.
pub proof fn law_failed_session_refuses_commands(
    sessions: Map<Seq<char>, SessionView>,
    id: Seq<char>,
    failure: ErrorView,
    run: RunView,
    event: EventView,
    now: Timestamp,
)
    requires
        sessions.contains_key(id),
        run.phase == RunPhase::Waiting,
        run.session_id == id,
    ensures
        ({
            let failed = provisioned(sessions[id], ProvisioningView::Failed(failure));
            let after = sessions.insert(id, failed);
            &&& failed.status is Error
            &&& command_step(run, after, event, now).action == ActionView::Done(
                Err(ErrorView::SessionFailed(None)),
            )
            &&& command_step(run, after, event, now).sessions == after
            &&& command_step(run, after, event, now).run.phase == RunPhase::Finished
        }),
{
}

/// For a session in a status that is not terminal, `clear` is answered at
/// the first poll with an empty output and the exit code 0: no action of the
/// runtime is asked for, and nothing changes.
pub proof fn law_clear_is_answered_locally(
    run: RunView,
    sessions: Map<Seq<char>, SessionView>,
    event: EventView,
    now: Timestamp,
)
    requires
        run.phase == RunPhase::Waiting,
        is_clear(run.command),
        sessions.contains_key(run.session_id),
        !sessions[run.session_id].status.is_terminal(),
    ensures
        command_step(run, sessions, event, now).action == ActionView::Done(
            Ok(clear_answer(run, now)),
        ),
        clear_answer(run, now).output.len() == 0,
        clear_answer(run, now).exit_code == 0,
        command_step(run, sessions, event, now).sessions == sessions,
{
}

/// When a directory change ends, the session's directory is the resolved
/// target if the exit code is 0, and is left as it was otherwise.
pub proof fn law_directory_follows_exit_code(
    run: RunView,
    sessions: Map<Seq<char>, SessionView>,
    code: Option<i64>,
    now: Timestamp,
)
    requires
        run.phase == RunPhase::InspectingExec,
        is_directory_change(run.command),
        sessions.contains_key(run.session_id),
    ensures
        ({
            let after = command_step(run, sessions, EventView::ExitCode(code), now).sessions;
            &&& after.contains_key(run.session_id)
            &&& exit_status(code) == 0 ==> after[run.session_id].current_directory
                == directory_after(run)
            &&& exit_status(code) != 0 ==> after == sessions
        }),
{
}

/// No step of a run changes the directory of a session, but the end of a
/// directory change with the exit code 0, which changes that of the run's
/// own session.
pub proof fn law_directory_changes_only_by_cd(
    run: RunView,
    sessions: Map<Seq<char>, SessionView>,
    event: EventView,
    now: Timestamp,
    id: Seq<char>,
)
    requires
        sessions.contains_key(id),
    ensures
        ({
            let after = command_step(run, sessions, event, now).sessions;
            &&& after.contains_key(id)
            &&& after[id].current_directory != sessions[id].current_directory ==> {
                &&& id == run.session_id
                &&& run.phase == RunPhase::InspectingExec
                &&& is_directory_change(run.command)
                &&& event matches EventView::ExitCode(code) && exit_status(code) == 0
            }
        }),
{
}

/// The status of a session only moves forward: the end of provisioning
/// takes a `Starting` session to `Running` or `Error`, and no step of a run
/// changes the status, the challenge or the time of creation of any session.
/// Both keep the registry's invariant.
pub proof fn law_status_moves_forward(
    run: RunView,
    sessions: Map<Seq<char>, SessionView>,
    event: EventView,
    now: Timestamp,
    id: Seq<char>,
    outcome: ProvisioningView,
)
    requires
        registry_wf(sessions),
        sessions.contains_key(id),
        sessions[id].status is Starting,
    ensures
        registry_step(sessions, sessions.insert(id, provisioned(sessions[id], outcome))),
        registry_wf(sessions.insert(id, provisioned(sessions[id], outcome))),
        registry_step(sessions, command_step(run, sessions, event, now).sessions),
        registry_wf(command_step(run, sessions, event, now).sessions),
        interactive_step(run, sessions, event, now).sessions == sessions,
{
    let after = command_step(run, sessions, event, now).sessions;
    assert forall|k: Seq<char>| #[trigger] after.contains_key(k) implies after[k].id == k
        && after[k].wf() by {
        assert(sessions.contains_key(k));
    }
    assert(after.dom() =~= sessions.dom() || after.dom() =~= sessions.dom().insert(run.session_id));
}

/// A command whose trimmed, lowercase form is the name of an interactive
/// program, or that name followed by a space and anything, is interactive.
pub proof fn law_program_name_is_interactive(i: int, rest: Seq<char>)
    requires
        0 <= i < interactive_programs().len(),
    ensures
        is_interactive_text(interactive_programs()[i]),
        is_interactive_text(interactive_programs()[i] + seq![' '] + rest),
{
    let program = interactive_programs()[i];
    assert(runs_program(program, program));
    let longer = program + seq![' '] + rest;
    assert(program.is_prefix_of(longer));
    assert(longer[program.len() as int] == ' ');
    assert(runs_program(longer, program));
}

/// A command whose trimmed, lowercase form is a single token, without any
/// space, is interactive only if the token is the name of an interactive
/// program: a longer token that merely begins with such a name is not.
pub proof fn law_longer_token_is_not_interactive(text: Seq<char>)
    requires
        forall|k: int| 0 <= k < text.len() ==> #[trigger] text[k] != ' ',
        forall|i: int| 0 <= i < interactive_programs().len() ==> text != #[trigger] interactive_programs()[i],
    ensures
        !is_interactive_text(text),
{
    assert forall|i: int| 0 <= i < interactive_programs().len() implies !runs_program(
        text,
        #[trigger] interactive_programs()[i],
    ) by {
        let program = interactive_programs()[i];
        if runs_program(text, program) {
            if text.len() == program.len() {
                assert(text =~= program);
            } else {
                assert(text[program.len() as int] == ' ');
            }
        }
    }
}

/// The directory above a directory never lies above the home directory: it
/// is neither the root nor `/home`. It is written with single slashes, so
/// that its segments are those that were kept.
pub proof fn law_parent_is_never_above_home(dir: Seq<char>)
    ensures
        !is_above_home(path_segments(parent_of(dir))),
{
    let segments = path_segments(dir);
    lemma_home_segments();
    if segments.len() == 0 || is_above_home(segments.drop_last()) {
        assert(path_segments(parent_of(dir)).len() == 2);
    } else {
        let kept = segments.drop_last();
        lemma_segments_are_segments(dir);
        assert forall|k: int| 0 <= k < kept.len() implies crate::paths::is_segment(
            #[trigger] kept[k],
        ) by {
            assert(kept[k] == segments[k]);
        }
        lemma_segments_of_joined(kept);
    }
}

/// When the reading of a command that is not interactive runs into the
/// ceiling, the exit code is asked for all the same, and the run ends with
/// the exit code that the runtime reports and with an output that closes
/// with the timeout marker.
pub proof fn law_timeout_keeps_exit_code(
    run: RunView,
    sessions: Map<Seq<char>, SessionView>,
    text: Seq<char>,
    code: Option<i64>,
    now: Timestamp,
    later: Timestamp,
)
    requires
        run.phase == RunPhase::Reading,
        !is_interactive(run.command),
    ensures
        ({
            let read = command_step(
                run,
                sessions,
                EventView::OutputRead { text, timed_out: true },
                now,
            );
            let end = command_step(read.run, read.sessions, EventView::ExitCode(code), later);
            &&& read.action == ActionView::InspectExec(run.exec_id)
            &&& end.action matches ActionView::Done(Ok(execution))
            &&& execution.exit_code == exit_status(code)
            &&& execution.output == text + timeout_marker()
        }),
{
}

/// After a sweep the registry holds exactly the sessions that it held
/// before and that were last active no longer ago than the threshold, to
/// the nanosecond, each as it was; the sessions that the sweep hands back
/// are exactly the others.
pub proof fn law_sweep_removes_exactly_the_idle(
    before: Map<Seq<char>, SessionView>,
    after: Map<Seq<char>, SessionView>,
    removed: Seq<SessionView>,
    now: Timestamp,
    max_idle_minutes: i64,
    id: Seq<char>,
)
    requires
        is_sweep(before, after, removed, now, max_idle_minutes),
        before.contains_key(id),
    ensures
        after.contains_key(id) <==> now.nanos_since_epoch() - before[id].last_activity.nanos_since_epoch()
            <= max_idle_minutes * NANOS_PER_MINUTE,
        after.contains_key(id) ==> after[id] == before[id],
        after.contains_key(id) <==> !exists|i: int| 0 <= i < removed.len() && #[trigger] removed[i].id == id,
{
    if after.contains_key(id) {
        if exists|i: int| 0 <= i < removed.len() && #[trigger] removed[i].id == id {
            let i = choose|i: int| 0 <= i < removed.len() && #[trigger] removed[i].id == id;
            assert(removed[i] == before[id]);
        }
    }
}

} // verus!
