//! What holds of the engine and of the client over whole runs.
//!
//! The local store appears here as one truth value: whether the table of the
//! data source is there. Of the actions of the engine, dropping the table makes
//! it absent, making the table makes it present, and every other action leaves
//! it as it was.

use crate::config::DataSourceView;
use crate::cursor::{resume_cursor_of, LastRecord};
use crate::deep_lynx::{
    bearer_headers, call_step, session_sound, token_expiry, APIErrorView, ClientStepView,
    HeaderView, HttpRequestView, InitiateDataSourceDownloadResponse, SessionView,
};
use crate::engine::{
    continuation_query, find_table, full_load_query, initial_state, staging_name, step, Mode,
    SourceSyncView, Stage, SyncActionView, SyncEvent,
};
use crate::errors::{LoaderError, LoaderErrorView};
use crate::pass::{pass_start, pass_step, SyncPassView};
use crate::statements::{append_text, create_text, drop_text, last_row_text, retention_text};
use crate::text::parsed_u64;
use vstd::prelude::*;

verus! {

/// Whether the table is there once `action` has been carried out.
pub open spec fn table_after(present: bool, action: SyncActionView) -> bool {
    match action {
        SyncActionView::DropTable { .. } => false,
        SyncActionView::CreateTable { .. } => true,
        _ => present,
    }
}

/// A run of the engine so far: where it stands, what it asked for, in order,
/// and whether the table is there after all of that was carried out.
pub struct RunView {
    pub state: SourceSyncView,
    pub actions: Seq<SyncActionView>,
    pub table_present: bool,
}

/// The run that goes on from `so_far` with the events of `events` from number
/// `from` on, each action being carried out before the next event is told.
pub open spec fn run_from(so_far: RunView, events: Seq<SyncEvent>, from: int, fresh: Seq<char>) -> RunView
    decreases events.len() - from,
{
    if from < 0 || from >= events.len() {
        so_far
    } else {
        let (state, action) = step(so_far.state, events[from], fresh);
        run_from(
            RunView {
                state,
                actions: so_far.actions.push(action),
                table_present: table_after(so_far.table_present, action),
            },
            events,
            from + 1,
            fresh,
        )
    }
}

/// The run of the engine from `state` on the events of `events`, with a table
/// that is there at the start or is not.
pub open spec fn run(
    state: SourceSyncView,
    table_present: bool,
    events: Seq<SyncEvent>,
    fresh: Seq<char>,
) -> RunView {
    run_from(RunView { state, actions: seq![], table_present }, events, 0, fresh)
}

/// What the driver reports during a full load of a table that was absent at
/// the lookup, when the store reports `rows` rows in the table it made: the
/// failed lookup, the drop, the descriptor, the stored file, the load, the
/// second drop where no row was loaded, and the removed file.
pub open spec fn full_load_events(
    handle: InitiateDataSourceDownloadResponse,
    rows: usize,
) -> Seq<SyncEvent> {
    if rows == 0 {
        seq![
            SyncEvent::TableChecked(false),
            SyncEvent::Executed(0),
            SyncEvent::DownloadReady(handle),
            SyncEvent::FileStored,
            SyncEvent::Executed(rows),
            SyncEvent::Executed(0),
            SyncEvent::FileRemoved,
        ]
    } else {
        seq![
            SyncEvent::TableChecked(false),
            SyncEvent::Executed(0),
            SyncEvent::DownloadReady(handle),
            SyncEvent::FileStored,
            SyncEvent::Executed(rows),
            SyncEvent::FileRemoved,
        ]
    }
}

/// What the driver reports during a continuation on a table whose newest row
/// is `record`, when `rows` rows are appended and `deleted` rows fall out of
/// the retention window.
pub open spec fn continuation_events(
    record: LastRecord,
    handle: InitiateDataSourceDownloadResponse,
    rows: usize,
    deleted: usize,
) -> Seq<SyncEvent> {
    seq![
        SyncEvent::TableChecked(true),
        SyncEvent::LastRow(Some(record)),
        SyncEvent::DownloadReady(handle),
        SyncEvent::FileStored,
        SyncEvent::Executed(rows),
        SyncEvent::FileRemoved,
        SyncEvent::Executed(deleted),
    ]
}

/// What a full load asks for after the lookup, in order, when the store
/// reports `rows` rows in the table it made: the drop, the extract from the
/// configured start, the file, the table, the second drop where no row was
/// loaded, the removal of the file, and the end.
pub open spec fn full_load_actions(
    source: DataSourceView,
    file_id: u64,
    rows: usize,
    fresh: Seq<char>,
) -> Seq<SyncActionView> {
    let opening = seq![
        SyncActionView::DropTable { statement: drop_text(source.table_name) },
        SyncActionView::InitiateDownload {
            container_id: source.container_id,
            data_source_id: source.data_source_id,
            query: full_load_query(source),
        },
        SyncActionView::StoreFile {
            container_id: source.container_id,
            file_id,
            delete_after: true,
            path: staging_name(fresh),
        },
        SyncActionView::CreateTable {
            statement: create_text(source.table_name, staging_name(fresh)),
        },
    ];
    let closing = seq![
        SyncActionView::RemoveFile { path: staging_name(fresh) },
        SyncActionView::Finish,
    ];
    if rows == 0 {
        opening.push(SyncActionView::DropTable { statement: drop_text(source.table_name) })
            + closing
    } else {
        opening + closing
    }
}

/// A full load of an absent table ends well, and the table is there afterwards
/// if and only if the extract held at least one row. The temporary file is
/// removed, and neither an append nor the retention cleanup is run.
pub proof fn lemma_full_load_keeps_table_iff_rows(
    source: DataSourceView,
    retention_days: u32,
    handle: InitiateDataSourceDownloadResponse,
    rows: usize,
    fresh: Seq<char>,
)
    requires
        parsed_u64(handle.id@) is Some,
    ensures
        ({
            let end = run(
                initial_state(source, retention_days),
                false,
                full_load_events(handle, rows),
                fresh,
            );
            &&& end.state.stage == Stage::Finished
            &&& end.table_present == (rows > 0)
            &&& end.actions == full_load_actions(source, parsed_u64(handle.id@)->0, rows, fresh)
        }),
{
    reveal_with_fuel(run_from, 8);
    let end = run(
        initial_state(source, retention_days),
        false,
        full_load_events(handle, rows),
        fresh,
    );
    assert(end.actions =~= full_load_actions(source, parsed_u64(handle.id@)->0, rows, fresh));
}

/// A full load that finds no rows leaves the table absent, and a second full
/// load right after it, which again finds no rows, leaves it absent again.
pub proof fn lemma_empty_full_load_repeats(
    source: DataSourceView,
    retention_days: u32,
    first_handle: InitiateDataSourceDownloadResponse,
    second_handle: InitiateDataSourceDownloadResponse,
    first_fresh: Seq<char>,
    second_fresh: Seq<char>,
)
    requires
        parsed_u64(first_handle.id@) is Some,
        parsed_u64(second_handle.id@) is Some,
    ensures
        ({
            let first = run(
                initial_state(source, retention_days),
                false,
                full_load_events(first_handle, 0),
                first_fresh,
            );
            let second = run(
                initial_state(source, retention_days),
                first.table_present,
                full_load_events(second_handle, 0),
                second_fresh,
            );
            &&& !first.table_present
            &&& first.state.stage == Stage::Finished
            &&& !second.table_present
            &&& second.state.stage == Stage::Finished
        }),
{
    reveal_with_fuel(run_from, 8);
}

/// A continuation on a table with a usable newest row ends well whatever
/// number of rows is appended, none included. It asks for what follows the
/// resume cursor, appends it, removes the temporary file and runs the
/// retention cleanup; it neither drops nor makes the table, which is there
/// afterwards as it was before.
pub proof fn lemma_continuation_leaves_table(
    source: DataSourceView,
    retention_days: u32,
    record: LastRecord,
    handle: InitiateDataSourceDownloadResponse,
    rows: usize,
    deleted: usize,
    fresh: Seq<char>,
)
    requires
        resume_cursor_of(record@, source.secondary_index is Some) matches Ok(Some(_)),
        parsed_u64(handle.id@) is Some,
    ensures
        ({
            let end = run(
                initial_state(source, retention_days),
                true,
                continuation_events(record, handle, rows, deleted),
                fresh,
            );
            let cursor = resume_cursor_of(record@, source.secondary_index is Some)->Ok_0->0;
            &&& end.state.stage == Stage::Finished
            &&& end.table_present
            &&& end.actions == seq![
                SyncActionView::ReadLastRow {
                    statement: last_row_text(
                        source.table_name,
                        source.timestamp_column_name,
                        source.secondary_index,
                    ),
                    with_secondary: source.secondary_index is Some,
                },
                SyncActionView::InitiateDownload {
                    container_id: source.container_id,
                    data_source_id: source.data_source_id,
                    query: continuation_query(source, cursor),
                },
                SyncActionView::StoreFile {
                    container_id: source.container_id,
                    file_id: parsed_u64(handle.id@)->0,
                    delete_after: true,
                    path: staging_name(fresh),
                },
                SyncActionView::AppendRows {
                    statement: append_text(source.table_name, staging_name(fresh)),
                },
                SyncActionView::RemoveFile { path: staging_name(fresh) },
                SyncActionView::DeleteExpired {
                    statement: retention_text(
                        source.table_name,
                        source.timestamp_column_name,
                        retention_days,
                    ),
                },
                SyncActionView::Finish,
            ]
        }),
{
    reveal_with_fuel(run_from, 8);
    let end = run(
        initial_state(source, retention_days),
        true,
        continuation_events(record, handle, rows, deleted),
        fresh,
    );
    assert(end.actions.len() == 7);
}

/// Whether a stage belongs to a continuation that is under way or over.
pub open spec fn in_continuation(stage: Stage) -> bool {
    match stage {
        Stage::RequestingDownload(Mode::Continuation) => true,
        Stage::StoringFile(Mode::Continuation) => true,
        Stage::Loading(Mode::Continuation) => true,
        Stage::RemovingFile(Mode::Continuation) => true,
        Stage::Cleaning => true,
        Stage::Finished => true,
        Stage::Aborted => true,
        _ => false,
    }
}

/// Whether a stage belongs to a full load that is under way or over.
pub open spec fn in_full_load(stage: Stage) -> bool {
    match stage {
        Stage::DroppingBeforeLoad => true,
        Stage::RequestingDownload(Mode::FullLoad) => true,
        Stage::StoringFile(Mode::FullLoad) => true,
        Stage::Loading(Mode::FullLoad) => true,
        Stage::DroppingEmpty => true,
        Stage::RemovingFile(Mode::FullLoad) => true,
        Stage::Finished => true,
        Stage::Aborted => true,
        _ => false,
    }
}

/// Once a continuation is under way, whatever is reported to it, it never
/// drops or makes the table: the table stays as it was.
pub proof fn lemma_continuation_never_touches_schema(
    so_far: RunView,
    events: Seq<SyncEvent>,
    from: int,
    fresh: Seq<char>,
)
    requires
        0 <= from,
        in_continuation(so_far.state.stage),
    ensures
        ({
            let end = run_from(so_far, events, from, fresh);
            &&& in_continuation(end.state.stage)
            &&& end.table_present == so_far.table_present
            &&& end.actions.len() >= so_far.actions.len()
            &&& forall|i: int|
                so_far.actions.len() <= i < end.actions.len() ==> !(#[trigger] end.actions[i]
                    is DropTable) && !(end.actions[i] is CreateTable)
        }),
    decreases events.len() - from,
{
    if from < events.len() {
        let (state, action) = step(so_far.state, events[from], fresh);
        let next = RunView {
            state,
            actions: so_far.actions.push(action),
            table_present: table_after(so_far.table_present, action),
        };
        lemma_continuation_never_touches_schema(next, events, from + 1, fresh);
        let end = run_from(so_far, events, from, fresh);
        assert forall|i: int| so_far.actions.len() <= i < end.actions.len() implies !(
        #[trigger] end.actions[i] is DropTable) && !(end.actions[i] is CreateTable) by {
            lemma_run_keeps_actions(next, events, from + 1, fresh);
            if i == so_far.actions.len() {
                assert(end.actions[i] == next.actions[i]);
            }
        }
    }
}

/// Once a full load is under way, whatever is reported to it, it never
/// appends to the table and never runs the retention cleanup.
pub proof fn lemma_full_load_never_cleans(
    so_far: RunView,
    events: Seq<SyncEvent>,
    from: int,
    fresh: Seq<char>,
)
    requires
        0 <= from,
        in_full_load(so_far.state.stage),
    ensures
        ({
            let end = run_from(so_far, events, from, fresh);
            &&& in_full_load(end.state.stage)
            &&& end.actions.len() >= so_far.actions.len()
            &&& forall|i: int|
                so_far.actions.len() <= i < end.actions.len() ==> !(#[trigger] end.actions[i]
                    is DeleteExpired) && !(end.actions[i] is AppendRows)
        }),
    decreases events.len() - from,
{
    if from < events.len() {
        let (state, action) = step(so_far.state, events[from], fresh);
        let next = RunView {
            state,
            actions: so_far.actions.push(action),
            table_present: table_after(so_far.table_present, action),
        };
        lemma_full_load_never_cleans(next, events, from + 1, fresh);
        let end = run_from(so_far, events, from, fresh);
        assert forall|i: int| so_far.actions.len() <= i < end.actions.len() implies !(
        #[trigger] end.actions[i] is DeleteExpired) && !(end.actions[i] is AppendRows) by {
            lemma_run_keeps_actions(next, events, from + 1, fresh);
            if i == so_far.actions.len() {
                assert(end.actions[i] == next.actions[i]);
            }
        }
    }
}

/// A run only adds to the actions that were asked for before it.
pub proof fn lemma_run_keeps_actions(
    so_far: RunView,
    events: Seq<SyncEvent>,
    from: int,
    fresh: Seq<char>,
)
    requires
        0 <= from,
    ensures
        ({
            let end = run_from(so_far, events, from, fresh);
            &&& end.actions.len() >= so_far.actions.len()
            &&& forall|i: int|
                0 <= i < so_far.actions.len() ==> #[trigger] end.actions[i] == so_far.actions[i]
        }),
    decreases events.len() - from,
{
    if from < events.len() {
        let (state, action) = step(so_far.state, events[from], fresh);
        let next = RunView {
            state,
            actions: so_far.actions.push(action),
            table_present: table_after(so_far.table_present, action),
        };
        lemma_run_keeps_actions(next, events, from + 1, fresh);
    }
}

/// A call that a secured session sends carries a token, and that token has
/// not run out at the time of the call.
pub proof fn lemma_secured_call_carries_live_token(
    session: SessionView,
    now: i64,
    request: HttpRequestView,
)
    requires
        session_sound(session),
        session.secured,
        request.headers == bearer_headers(session.bearer_token),
        call_step(session, now, request) == Ok::<ClientStepView, APIErrorView>(
            ClientStepView::Send(request),
        ),
    ensures
        session.bearer_token is Some,
        token_expiry(session.bearer_token, now) == Ok::<bool, APIErrorView>(false),
        request.headers == seq![
            HeaderView { name: "Authorization"@, value: "Bearer "@ + session.bearer_token->0 },
        ],
{
}

/// An unsecured session never asks for a token: whatever the time, its call
/// is sent at once, and without an authorization header.
pub proof fn lemma_unsecured_call_is_sent_bare(
    session: SessionView,
    now: i64,
    request: HttpRequestView,
)
    requires
        session_sound(session),
        !session.secured,
    ensures
        call_step(session, now, request) == Ok::<ClientStepView, APIErrorView>(
            ClientStepView::Send(request),
        ),
        bearer_headers(session.bearer_token) == Seq::<HeaderView>::empty(),
{
}

/// A secured session without a token, or with one that has run out, is told
/// to fetch a token before anything is sent.
pub proof fn lemma_stale_session_fetches_token(
    session: SessionView,
    now: i64,
    request: HttpRequestView,
)
    requires
        session_sound(session),
        session.secured,
        session.bearer_token is None || token_expiry(session.bearer_token, now) == Ok::<
            bool,
            APIErrorView,
        >(true),
    ensures
        call_step(session, now, request) matches Ok(ClientStepView::FetchToken(_)),
{
}

/// A pass so far: where it stands and what it asked for, in order.
pub struct PassRunView {
    pub pass: SyncPassView,
    pub actions: Seq<SyncActionView>,
}

/// The pass that goes on from `so_far` with the events of `events` from
/// number `from` on.
pub open spec fn pass_run_from(
    so_far: PassRunView,
    events: Seq<SyncEvent>,
    from: int,
    fresh: Seq<char>,
) -> PassRunView
    decreases events.len() - from,
{
    if from < 0 || from >= events.len() {
        so_far
    } else {
        let (pass, action) = pass_step(so_far.pass, events[from], fresh);
        pass_run_from(
            PassRunView { pass, actions: so_far.actions.push(action) },
            events,
            from + 1,
            fresh,
        )
    }
}

/// A failure that is reported to a pass ends the pass with that failure. The
/// data sources that were still to come are not taken up, and whatever is
/// reported afterwards is answered with `UnexpectedEvent`.
pub proof fn lemma_failure_ends_pass(
    pass: SyncPassView,
    reason: LoaderError,
    later: SyncEvent,
    fresh: Seq<char>,
    later_fresh: Seq<char>,
)
    requires
        pass.current matches Some(machine) && !(machine.stage is Finished) && !(machine.stage
            is Aborted),
    ensures
        ({
            let (ended, action) = pass_step(pass, SyncEvent::Failed(reason), fresh);
            &&& action == SyncActionView::Abort(reason@)
            &&& ended.current is None
            &&& ended.pending == pass.pending
            &&& pass_step(ended, later, later_fresh) == (
                ended,
                SyncActionView::Abort(LoaderErrorView::UnexpectedEvent),
            )
        }),
{
}

/// A load that finds no rows does not end the pass: once the first data
/// source has been loaded in full from an empty extract, the second one is
/// taken up.
pub proof fn lemma_pass_goes_on_after_empty_load(
    sources: Seq<DataSourceView>,
    retention_days: u32,
    handle: InitiateDataSourceDownloadResponse,
    fresh: Seq<char>,
)
    requires
        sources.len() >= 2,
        parsed_u64(handle.id@) is Some,
    ensures
        ({
            let (pass, first) = pass_start(sources, retention_days);
            let end = pass_run_from(
                PassRunView { pass, actions: seq![first] },
                full_load_events(handle, 0),
                0,
                fresh,
            );
            &&& first == find_table(sources[0])
            &&& end.actions.last() == find_table(sources[1])
            &&& end.pass.current == Some(initial_state(sources[1], retention_days))
            &&& end.pass.pending == sources.subrange(2, sources.len() as int)
            &&& forall|i: int| 0 <= i < end.actions.len() ==> !(#[trigger] end.actions[i] is Abort)
        }),
{
    reveal_with_fuel(pass_run_from, 8);
    let (pass, first) = pass_start(sources, retention_days);
    let end = pass_run_from(
        PassRunView { pass, actions: seq![first] },
        full_load_events(handle, 0),
        0,
        fresh,
    );
    assert(end.pass.pending =~= sources.subrange(2, sources.len() as int));
    assert(end.actions.len() == 8);
}

} // verus!
