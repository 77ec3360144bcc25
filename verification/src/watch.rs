//! Watch mode decisions. The filesystem watch itself delivers events from
//! outside; this module decides, per event, what the watch loop does: a
//! change notification triggers exactly one full rebuild, a watcher fault
//! is reported and the loop keeps watching.

use vstd::prelude::*;
use vstd::string::StringExecFns;

verus! {

/// One notification from the filesystem watch: a change somewhere under
/// the content root, or a fault reported by the watcher.
pub enum WatchEvent {
    Changed,
    Faulted(String),
}

/// The abstract value of a `WatchEvent`.
pub ghost enum WatchEventV {
    Changed,
    Faulted(Seq<char>),
}

impl View for WatchEvent {
    type V = WatchEventV;

    open spec fn view(&self) -> WatchEventV {
        match self {
            WatchEvent::Changed => WatchEventV::Changed,
            WatchEvent::Faulted(m) => WatchEventV::Faulted(m@),
        }
    }
}

/// What the watch loop does with one event: run one full rebuild, or
/// print a report line and keep waiting.
pub enum WatchAction {
    Rebuild,
    Report(String),
}

/// The abstract value of a `WatchAction`.
pub ghost enum WatchActionV {
    Rebuild,
    Report(Seq<char>),
}

impl View for WatchAction {
    type V = WatchActionV;

    open spec fn view(&self) -> WatchActionV {
        match self {
            WatchAction::Rebuild => WatchActionV::Rebuild,
            WatchAction::Report(m) => WatchActionV::Report(m@),
        }
    }
}

/// The action of one event: a change rebuilds, a fault is reported.
pub open spec fn spec_watch_action(ev: WatchEventV) -> WatchActionV {
    match ev {
        WatchEventV::Changed => WatchActionV::Rebuild,
        WatchEventV::Faulted(m) => WatchActionV::Report("Watch error: "@ + m),
    }
}

/// Decide what one watch notification triggers. Every change event maps
/// to one rebuild; a fault never does.
pub fn watch_step(ev: &WatchEvent) -> (a: WatchAction)
    ensures
        a@ == spec_watch_action(ev@),
{
    match ev {
        WatchEvent::Changed => WatchAction::Rebuild,
        WatchEvent::Faulted(m) => {
            let mut out: String = "Watch error: ".to_owned();
            out.append(m.as_str());
            WatchAction::Report(out)
        },
    }
}

/// How many of a sequence of events are change notifications.
pub open spec fn spec_change_count(evs: Seq<WatchEventV>) -> int
    decreases evs.len(),
{
    if evs.len() == 0 {
        0
    } else {
        spec_change_count(evs.drop_last()) + if evs.last() is Changed {
            1int
        } else {
            0int
        }
    }
}

/// How many of a sequence of actions are rebuilds.
pub open spec fn spec_rebuild_count(acts: Seq<WatchActionV>) -> int
    decreases acts.len(),
{
    if acts.len() == 0 {
        0
    } else {
        spec_rebuild_count(acts.drop_last()) + if acts.last() is Rebuild {
            1int
        } else {
            0int
        }
    }
}

/// Law: over any sequence of watch events, the loop performs exactly one
/// full rebuild per change notification — no event is dropped and none
/// rebuilds twice.
pub proof fn lemma_one_rebuild_per_change(evs: Seq<WatchEventV>)
    ensures
        spec_rebuild_count(evs.map(|i: int, e: WatchEventV| spec_watch_action(e)))
            == spec_change_count(evs),
    decreases evs.len(),
{
    let acts = evs.map(|i: int, e: WatchEventV| spec_watch_action(e));
    if evs.len() > 0 {
        lemma_one_rebuild_per_change(evs.drop_last());
        assert(acts.drop_last() =~= evs.drop_last().map(
            |i: int, e: WatchEventV| spec_watch_action(e),
        ));
        assert(acts.last() == spec_watch_action(evs.last()));
    }
}

} // verus!
