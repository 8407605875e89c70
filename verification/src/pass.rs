//! One pass over every configured data source, one after the other.

use crate::bindings::fresh_identifier;
use crate::config::{sources_view, Configuration, DataSourceConfiguration, DataSourceView};
use crate::engine::{
    find_table, initial_state, step, SourceSync, SourceSyncView, SyncAction, SyncActionView,
    SyncEvent,
};
use crate::errors::{LoaderError, LoaderErrorView};
use vstd::prelude::*;

verus! {

/// A pass in progress: the data sources that are still to come, in their
/// order, and the synchronisation of the one that is under way.
#[derive(Debug, Clone, PartialEq, Eq)]
pub struct SyncPass {
    pending: Vec<DataSourceConfiguration>,
    retention_days: u32,
    current: Option<SourceSync>,
}

/// A `SyncPass` with its parts taken by their views.
pub struct SyncPassView {
    /// The data sources still to come, in the order in which they are taken up.
    pub pending: Seq<DataSourceView>,
    /// The retention window, in days.
    pub retention_days: u32,
    /// The synchronisation under way; none once the pass is over.
    pub current: Option<SourceSyncView>,
}

impl View for SyncPass {
    type V = SyncPassView;

    closed spec fn view(&self) -> SyncPassView {
        SyncPassView {
            pending: sources_view(self.pending@),
            retention_days: self.retention_days,
            current: match self.current {
                Some(machine) => Some(machine@),
                None => None,
            },
        }
    }
}

/// The pass with the next data source taken up, or over where none is left.
pub open spec fn take_up(pass: SyncPassView) -> (SyncPassView, SyncActionView) {
    if pass.pending.len() > 0 {
        (
            SyncPassView {
                pending: pass.pending.drop_first(),
                current: Some(initial_state(pass.pending.first(), pass.retention_days)),
                ..pass
            },
            find_table(pass.pending.first()),
        )
    } else {
        (SyncPassView { current: None, ..pass }, SyncActionView::Finish)
    }
}

/// The start of a pass over `sources`: the first data source is taken up. A
/// pass over no data source is over at once.
pub open spec fn pass_start(sources: Seq<DataSourceView>, retention_days: u32) -> (
    SyncPassView,
    SyncActionView,
) {
    take_up(SyncPassView { pending: sources, retention_days, current: None })
}

/// What a pass does when it is told `event`. The event goes to the
/// synchronisation under way. When that one finishes, the next data source is
/// taken up, and the pass finishes after the last. When it gives up, the
/// pass gives up with it: no later data source is touched. A pass that is
/// over answers every event with `UnexpectedEvent`.
pub open spec fn pass_step(pass: SyncPassView, event: SyncEvent, fresh: Seq<char>) -> (
    SyncPassView,
    SyncActionView,
) {
    match pass.current {
        None => (pass, SyncActionView::Abort(LoaderErrorView::UnexpectedEvent)),
        Some(machine) => {
            let (moved, action) = step(machine, event, fresh);
            match action {
                SyncActionView::Finish => take_up(SyncPassView { current: None, ..pass }),
                SyncActionView::Abort(reason) => (
                    SyncPassView { current: None, ..pass },
                    SyncActionView::Abort(reason),
                ),
                _ => (SyncPassView { current: Some(moved), ..pass }, action),
            }
        },
    }
}

impl SyncPass {
/// Takes up the next data source, if one is left.
    fn take_up(&mut self) -> (action: SyncAction)
        requires
            old(self).current is None,
        ensures
            (final(self)@, action@) == take_up(old(self)@),
    {
        if self.pending.len() > 0 {
            let ghost before = self.pending@;
            let next = self.pending.remove(0);
            assert(sources_view(self.pending@) =~= sources_view(before).drop_first());
            let (machine, action) = SourceSync::start(&next, self.retention_days);
            self.current = Some(machine);
            action
        } else {
            SyncAction::Finish
        }
    }

    /// Whether the pass is over, well or not.
    pub fn is_over(&self) -> (r: bool)
        ensures
            r == (self@.current is None),
    {
        self.current.is_none()
    }

    /// How many data sources are still to come.
    pub fn remaining(&self) -> (r: usize)
        ensures
            r == self@.pending.len(),
    {
        self.pending.len()
    }

    /// Tells the pass what happened and learns what to do next. `fresh` is the
    /// identifier from which the temporary file is named, should this step
    /// choose one.
    pub fn advance_with(&mut self, event: SyncEvent, fresh: String) -> (action: SyncAction)
        ensures
            (final(self)@, action@) == pass_step(old(self)@, event, fresh@),
    {
        match self.current.take() {
            None => SyncAction::Abort(LoaderError::UnexpectedEvent),
            Some(machine) => {
                let mut machine = machine;
                let action = machine.advance_with(event, fresh);
                match action {
                    SyncAction::Finish => self.take_up(),
                    SyncAction::Abort(reason) => SyncAction::Abort(reason),
                    other => {
                        self.current = Some(machine);
                        other
                    },
                }
            },
        }
    }

    /// Tells the pass what happened and learns what to do next. The temporary
    /// file, when this step chooses one, is named from a fresh random
    /// identifier.
    pub fn advance(&mut self, event: SyncEvent) -> (action: SyncAction)
        ensures
            exists|fresh: Seq<char>|
                (final(self)@, action@) == #[trigger] pass_step(old(self)@, event, fresh),
    {
        let fresh = match &event {
            SyncEvent::DownloadReady(_) => fresh_identifier(),
            _ => String::new(),
        };
        self.advance_with(event, fresh)
    }
}

/// Starts one pass over the data sources of `config`, in their order. Each
/// data source is synchronised to its end before the next is taken up.
pub fn load_loop(config: &Configuration) -> (r: (SyncPass, SyncAction))
    ensures
        (r.0@, r.1@) == pass_start(sources_view(config.data_sources@), config.data_retention_days),
{
    let mut sources: Vec<DataSourceConfiguration> = Vec::new();
    let mut i: usize = 0;
    while i < config.data_sources.len()
        invariant
            i <= config.data_sources.len(),
            sources.len() == i,
            forall|j: int| 0 <= j < i ==> (#[trigger] sources@[j])@ == config.data_sources@[j]@,
        decreases config.data_sources.len() - i,
    {
        sources.push(config.data_sources[i].duplicate());
        i = i + 1;
    }
    assert(sources_view(sources@) =~= sources_view(config.data_sources@));
    let mut pass = SyncPass {
        pending: sources,
        retention_days: config.data_retention_days,
        current: None,
    };
    let action = pass.take_up();
    (pass, action)
}

} // verus!
