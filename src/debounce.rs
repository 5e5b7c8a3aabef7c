//! Coalescing of raw file-system events into change batches.

use vstd::prelude::*;

verus! {

/// A raw event of the recursive directory watch.
pub enum DebouncedEvent {
    NoticeWrite(String),
    NoticeRemove(String),
    Create(String),
    Write(String),
    Chmod(String),
    Remove(String),
    Rename(String, String),
    Rescan,
    /// The watch reported an error, possibly about a path.
    Error(Option<String>),
}

/// The changed paths an event stands for: one for a create, write or
/// remove, both ends of a rename, none otherwise.
pub open spec fn event_paths(e: DebouncedEvent) -> Seq<Seq<char>> {
    match e {
        DebouncedEvent::Create(p) => seq![p@],
        DebouncedEvent::Write(p) => seq![p@],
        DebouncedEvent::Remove(p) => seq![p@],
        DebouncedEvent::Rename(from, to) => seq![from@, to@],
        _ => Seq::empty(),
    }
}

/// The changed paths of a run of events, in order, duplicates kept.
pub open spec fn batch_spec(events: Seq<DebouncedEvent>) -> Seq<Seq<char>>
    decreases events.len(),
{
    if events.len() == 0 {
        Seq::empty()
    } else {
        batch_spec(events.drop_last()) + event_paths(events.last())
    }
}

pub open spec fn paths_view(v: Seq<String>) -> Seq<Seq<char>> {
    v.map_values(|s: String| s@)
}

fn append_event_paths(event: &DebouncedEvent, changed_paths: &mut Vec<String>)
    ensures
        paths_view(final(changed_paths)@) == paths_view(old(changed_paths)@) + event_paths(*event),
{
    match event {
        DebouncedEvent::Create(p) => changed_paths.push(p.clone()),
        DebouncedEvent::Write(p) => changed_paths.push(p.clone()),
        DebouncedEvent::Remove(p) => changed_paths.push(p.clone()),
        DebouncedEvent::Rename(from, to) => {
            changed_paths.push(from.clone());
            changed_paths.push(to.clone());
        },
        _ => {},
    }
    assert(paths_view(changed_paths@) =~= paths_view(old(changed_paths)@) + event_paths(*event));
}

/// Appends the paths `debounced_event` stands for to `changed_paths`.
pub fn retrieve_changed_paths_and_append_to_vec(
    debounced_event: DebouncedEvent,
    changed_paths: &mut Vec<String>,
)
    ensures
        paths_view(final(changed_paths)@) == paths_view(old(changed_paths)@) + event_paths(
            debounced_event,
        ),
{
    append_event_paths(&debounced_event, changed_paths);
}

/// The one batch emitted for a burst: the event that ended the wait followed
/// by every event drained after it without blocking.
pub fn collect_batch(events: &Vec<DebouncedEvent>) -> (r: Vec<String>)
    ensures
        paths_view(r@) == batch_spec(events@),
{
    let mut out: Vec<String> = Vec::new();
    let n = events.len();
    let mut i: usize = 0;
    while i < n
        invariant
            n == events@.len(),
            i <= n,
            paths_view(out@) == batch_spec(events@.subrange(0, i as int)),
        decreases n - i,
    {
        append_event_paths(&events[i], &mut out);
        assert(events@.subrange(0, i + 1).drop_last() =~= events@.subrange(0, i as int));
        i = i + 1;
    }
    assert(events@.subrange(0, n as int) =~= events@);
    out
}

} // verus!
