//! What holds of every resolution, whatever the operating system answers.

use crate::id::FileId;
use crate::kind::ErrorKind;
use crate::limits::{spec_invalid_handle, spec_no_more_files};
use crate::windows::resolver::{
    closing, open_file_by_id, open_volume, query_final_path, query_id_info, ActionView,
    EventView, HandleKind, Held, ResolverView, StageView,
};
use crate::windows::{final_path, target_of, Cause, Error, Target};
use vstd::prelude::*;

verus! {

/// The kind of handle that the call `action` opens, if it opens any.
pub open spec fn opens(action: ActionView) -> Option<HandleKind> {
    match action {
        ActionView::FindFirstVolume { .. } => Some(HandleKind::Search),
        ActionView::OpenVolume { .. } => Some(HandleKind::File),
        ActionView::OpenFileById { .. } => Some(HandleKind::File),
        _ => None,
    }
}

/// The handle that the outcome `event` brings, if the call opened one.
pub open spec fn brings(event: EventView) -> Option<usize> {
    match event {
        EventView::FirstVolume { search, .. } => if search == spec_invalid_handle() {
            None
        } else {
            Some(search)
        },
        EventView::Opened { handle, .. } => if handle == spec_invalid_handle() {
            None
        } else {
            Some(handle)
        },
        _ => None,
    }
}

/// Whether `action` closes a handle.
pub open spec fn closes(action: ActionView) -> bool {
    action is FindVolumeClose || action is CloseHandle
}

/// Whether `event` is an outcome of the call `action`.
pub open spec fn answers(event: EventView, action: ActionView) -> bool {
    match action {
        ActionView::FindFirstVolume { .. } => event is FirstVolume,
        ActionView::FindNextVolume { .. } => event is NextVolume,
        ActionView::FindVolumeClose { .. } => event is Closed,
        ActionView::VolumePathNames { .. } => event is PathNames,
        ActionView::OpenVolume { .. } => event is Opened,
        ActionView::FileIdInfo { .. } => event is IdInfo,
        ActionView::OpenFileById { .. } => event is Opened,
        ActionView::FinalPathName { .. } => event is FinalPath,
        ActionView::CloseHandle { .. } => event is Closed,
        ActionView::Return(_) => false,
    }
}

/// What is held after the outcome `event` of the call `action`, `held`
/// being held before it: a handle that the call opened is added, the handle
/// that it closed is removed, and nothing else changes.
pub open spec fn ledger(held: Seq<Held>, action: ActionView, event: EventView) -> Seq<Held> {
    if !answers(event, action) {
        held
    } else if closes(action) {
        held.drop_last()
    } else {
        match (opens(action), brings(event)) {
            (Some(kind), Some(raw)) => held.push(Held { kind, raw }),
            _ => held,
        }
    }
}

/// An identifier that is not in the primary form ends the resolution before
/// any call is asked for: one of the Unix family as `InvalidFileId`, one in
/// the legacy form as `Unsupported`, both of them errors of the caller.
pub proof fn lemma_rejection_makes_no_call(id: FileId, capacity: u32)
    requires
        !(id is HighRes),
    ensures
        ResolverView::starting(id, capacity).action() == ActionView::Return(
            Err(target_of(id)->Err_0),
        ),
        id is Inode ==> target_of(id) == Err::<Target, Error>(Error::InvalidFileId),
        id is LowRes ==> target_of(id) == Err::<Target, Error>(Error::Unsupported),
        (target_of(id)->Err_0).spec_kind() == ErrorKind::UnsupportedIdentifier,
        ResolverView::starting(id, capacity).held.len() == 0,
{
}

/// A resolution begins well-formed and holding nothing, whatever the
/// identifier.
pub proof fn lemma_start_holds_nothing(id: FileId, capacity: u32)
    ensures
        ResolverView::starting(id, capacity).wf(),
        ResolverView::starting(id, capacity).held.len() == 0,
        id is HighRes ==> ResolverView::starting(id, capacity).action() == (
        ActionView::FindFirstVolume { capacity }),
{
}

/// Well-formedness is kept, and the ledger of held handles is exact: after
/// each outcome it holds what was held before, with the handle that the call
/// opened, without the handle that the call closed. A call that closes a
/// handle closes the one opened last.
pub proof fn lemma_ledger_is_exact(s: ResolverView, event: EventView)
    requires
        s.wf(),
    ensures
        s.next(event).wf(),
        s.next(event).held == ledger(s.held, s.action(), event),
        closes(s.action()) ==> s.held.len() > 0 && s.action() == closing(s.held.last()),
        !answers(event, s.action()) ==> s.next(event) == s,
{
}

/// Once a resolution returns, no handle that it opened is open.
pub proof fn lemma_return_holds_nothing(s: ResolverView)
    requires
        s.wf(),
        s.action() is Return,
    ensures
        s.held.len() == 0,
        s.outcome() == Some(s.action()->Return_0),
{
}

/// A settled result stays: until it is returned, each outcome closes one
/// more handle and changes nothing else.
pub proof fn lemma_settled_result_stays(s: ResolverView, event: EventView)
    requires
        s.wf(),
        s.outcome() is Some,
    ensures
        s.next(event).outcome() == s.outcome(),
        closes(s.action()) || s.action() is Return,
        s.next(event).held.len() == if event is Closed && s.held.len() > 0 {
            s.held.len() - 1
        } else {
            s.held.len() as int
        },
{
}

/// The resolution of a file that the caller holds open is one call: the
/// query for its final path, whose outcome is returned at once. The handle
/// is not closed; it stays the caller's.
pub proof fn lemma_open_file_takes_one_call(
    handle: usize,
    capacity: u32,
    size: u32,
    buffer: Seq<u16>,
    last_error: u32,
)
    ensures
        ResolverView::querying(handle, capacity).wf(),
        ResolverView::querying(handle, capacity).action() == query_final_path(handle, capacity),
        ResolverView::querying(handle, capacity).next(
            EventView::FinalPath { size, buffer, last_error },
        ).action() == ActionView::Return(final_path(size, buffer, last_error)),
{
}

/// Once the volume is open as `volume`, the file is asked for by its id on
/// that volume, for reading only; once the file is open as `file`, its final
/// path is asked for in the normalized form.
pub proof fn lemma_file_is_opened_by_its_id(
    s: ResolverView,
    volume: usize,
    file: usize,
    last_error: u32,
)
    requires
        s.wf(),
        s.stage is Volume,
        volume != spec_invalid_handle(),
        file != spec_invalid_handle(),
    ensures
        ({
            let opened = s.next(EventView::Opened { handle: volume, last_error });
            let found = opened.next(EventView::Opened { handle: file, last_error });
            &&& s.action() == open_volume(s.stage->Volume_path_name)
            &&& opened.action() == open_file_by_id(volume, s.target->0.file_id)
            &&& found.action() == query_final_path(file, s.capacity)
        }),
{
}

/// A path is never cut short: where the size that the system reports for
/// the final path exceeds the buffer, the result is the failure that carries
/// both sizes.
pub proof fn lemma_no_silent_truncation(
    s: ResolverView,
    size: u32,
    buffer: Seq<u16>,
    last_error: u32,
)
    requires
        s.wf(),
        s.stage is Path,
        size > buffer.len(),
    ensures
        final_path(size, buffer, last_error) == Err::<Seq<char>, Error>(
            Error::FinalPathName(
                Cause::OutOfMemory { required: size, available: buffer.len() as usize },
            ),
        ),
        s.next(EventView::FinalPath { size, buffer, last_error }).outcome() == Some(
            final_path(size, buffer, last_error),
        ),
        Error::FinalPathName(
            Cause::OutOfMemory { required: size, available: buffer.len() as usize },
        ).spec_kind() == ErrorKind::CapacityExceeded,
{
}

/// A path is the result only as the final path of the open file: no other
/// outcome of any call settles a success.
pub proof fn lemma_success_is_the_final_path(s: ResolverView, event: EventView)
    requires
        s.wf(),
        s.outcome() is None,
        s.next(event).outcome() is Some,
        s.next(event).outcome()->0 is Ok,
    ensures
        s.stage is Path,
        event is FinalPath,
        s.next(event).outcome() == Some(
            final_path(
                event->FinalPath_size,
                event->FinalPath_buffer,
                event->FinalPath_last_error,
            ),
        ),
{
}

/// A file that cannot be opened by its id, as one deleted since its id was
/// taken, is reported as that failure with the system's error code, never
/// as a path; whatever the code, the failure is of the not-found class.
pub proof fn lemma_stale_file_is_reported(s: ResolverView, last_error: u32)
    requires
        s.wf(),
        s.stage is File,
    ensures
        s.next(EventView::Opened { handle: spec_invalid_handle(), last_error }).outcome() == Some(
            Err::<Seq<char>, Error>(Error::OpenFile(Cause::Os(last_error))),
        ),
        Error::OpenFile(Cause::Os(last_error)).spec_kind() == ErrorKind::NotFound,
{
}

/// An enumeration that ends without any volume of the serial number looked
/// for is reported as not found.
pub proof fn lemma_missing_volume_is_not_found(s: ResolverView, volume_name: Seq<u16>)
    requires
        s.wf(),
        s.stage is NextVolume,
    ensures
        s.next(
            EventView::NextVolume { ret: 0, volume_name, last_error: spec_no_more_files() },
        ).outcome() == Some(Err::<Seq<char>, Error>(Error::FindVolume(Cause::NotFound))),
        Error::FindVolume(Cause::NotFound).spec_kind() == ErrorKind::NotFound,
{
}

/// An enumeration that does not go on is over for the resolver: whatever
/// the error code, the result is settled, and no further step of the
/// enumeration is asked for.
pub proof fn lemma_enumeration_end_settles(
    s: ResolverView,
    volume_name: Seq<u16>,
    last_error: u32,
    later: EventView,
)
    requires
        s.wf(),
        s.stage is NextVolume,
    ensures
        ({
            let ended = s.next(EventView::NextVolume { ret: 0, volume_name, last_error });
            &&& ended.outcome() is Some
            &&& ended.outcome()->0 is Err
            &&& !(ended.action() is FindNextVolume)
            &&& !(ended.next(later).action() is FindNextVolume)
        }),
{
}

/// The first mount path whose volume reports the serial number looked for
/// is the one at which the volume is opened: once that volume is closed and
/// the enumeration with it, the resolver asks to open that very path.
pub proof fn lemma_first_match_wins(
    s: ResolverView,
    ret: i32,
    volume_serial_number: u64,
    last_error: u32,
)
    requires
        s.wf(),
        s.stage is Serial,
        ret != 0,
        volume_serial_number == s.target->0.volume_serial_number,
    ensures
        ({
            let path_name = s.stage->Serial_paths[s.stage->Serial_index as int];
            let read = s.next(EventView::IdInfo { ret, volume_serial_number, last_error });
            let closed = read.next(EventView::Closed);
            let ended = closed.next(EventView::Closed);
            &&& read.action() == ActionView::CloseHandle { handle: s.held[1].raw }
            &&& closed.action() == ActionView::FindVolumeClose { search: s.held[0].raw }
            &&& ended.action() == open_volume(path_name)
            &&& ended.held.len() == 0
        }),
{
}

/// How many more calls the examination of a volume's mount paths can take
/// before the resolver turns to another volume or settles a result.
pub open spec fn calls_left(s: ResolverView) -> nat {
    match s.stage {
        StageView::Candidate { paths, index } => (3 * (paths.len() - index)) as nat,
        StageView::Serial { paths, index } => (3 * (paths.len() - index) - 1) as nat,
        StageView::CandidateClosing { paths, index, .. } => (3 * (paths.len() - index) - 2) as nat,
        _ => 0,
    }
}

/// Whether the resolver is examining the mount paths of a volume.
pub open spec fn examining(s: ResolverView) -> bool {
    s.stage is Candidate || s.stage is Serial || s.stage is CandidateClosing
}

/// The examination of a volume's mount paths ends, however many paths the
/// volume is mounted at: each outcome of the call asked for either leaves the
/// examination or leaves fewer calls to it, and no path is opened twice.
pub proof fn lemma_examination_ends(s: ResolverView, event: EventView)
    requires
        s.wf(),
        examining(s),
        answers(event, s.action()),
    ensures
        !examining(s.next(event)) || calls_left(s.next(event)) < calls_left(s),
{
}

/// A mount path whose volume reports another serial number is passed
/// over: once that volume is closed, the resolver turns to the next mount
/// path of the list, or to the next volume where that was the last, and holds
/// what it held before the path was opened.
pub proof fn lemma_mismatch_moves_on(
    s: ResolverView,
    handle: usize,
    ret: i32,
    volume_serial_number: u64,
    last_error: u32,
)
    requires
        s.wf(),
        s.stage is Candidate,
        handle != spec_invalid_handle(),
        ret != 0,
        volume_serial_number != s.target->0.volume_serial_number,
    ensures
        ({
            let paths = s.stage->Candidate_paths;
            let index = s.stage->Candidate_index;
            let opened = s.next(EventView::Opened { handle, last_error });
            let read = opened.next(EventView::IdInfo { ret, volume_serial_number, last_error });
            let closed = read.next(EventView::Closed);
            &&& opened.action() == query_id_info(handle)
            &&& read.action() == ActionView::CloseHandle { handle }
            &&& closed == s.examine(paths, index + 1)
            &&& index + 1 < paths.len() ==> closed.action() == open_volume(paths[index as int + 1])
            &&& index + 1 == paths.len() ==> closed.action() == ActionView::FindNextVolume {
                search: s.held[0].raw,
                capacity: s.capacity,
            }
        }),
{
    let opened = s.next(EventView::Opened { handle, last_error });
    let read = opened.next(EventView::IdInfo { ret, volume_serial_number, last_error });
    let closed = read.next(EventView::Closed);
    assert(closed.held == s.held);
}

/// The resolution after `n` more handles are closed.
pub open spec fn after_closes(s: ResolverView, n: nat) -> ResolverView
    decreases n,
{
    if n == 0 {
        s
    } else {
        after_closes(s.next(EventView::Closed), (n - 1) as nat)
    }
}

/// A settled result is returned once every handle that is held is closed,
/// and not before: the resolver asks for as many closings as it holds
/// handles, and then returns the result, holding nothing.
pub proof fn lemma_unwinding_returns(s: ResolverView)
    requires
        s.wf(),
        s.outcome() is Some,
    ensures
        after_closes(s, s.held.len()).action() == ActionView::Return(s.outcome()->0),
        after_closes(s, s.held.len()).held.len() == 0,
        s.held.len() > 0 ==> closes(s.action()),
    decreases s.held.len(),
{
    if s.held.len() > 0 {
        let t = s.next(EventView::Closed);
        lemma_unwinding_returns(t);
    }
}

} // verus!
