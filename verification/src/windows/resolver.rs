//! The order of the Windows resolver's calls, as a state machine.
//!
//! A [`Resolver`] asks for one call to the operating system at a time
//! ([`Resolver::action`]) and takes the raw outcome of that call back
//! ([`Resolver::advance`]). It keeps a ledger of the handles that the calls
//! opened, has each of them closed before it returns, and returns only once:
//! with the path, or with the failure of the first call that failed.

use crate::id::FileId;
use crate::limits::{
    extended_file_id_type, file_flag_backup_semantics, file_generic_read, file_id_info,
    file_name_normalized, file_share_read, open_existing, spec_extended_file_id_type,
    spec_file_flag_backup_semantics, spec_file_generic_read, spec_file_id_info,
    spec_file_name_normalized, spec_file_share_read, spec_open_existing,
};
use crate::text::copy_units;
use crate::windows::{
    file_handle_from_id, file_target, final_path, find_first_volume, find_next_volume,
    get_volume_handle_from_path, get_volume_path_names, get_volume_serial_number_from_path,
    names_view, next_volume, opened, path_from_handle, path_view, serial_number, target_of,
    volume_path_names, Cause, Error, Target,
};
use vstd::prelude::*;

verus! {

/// How a handle is closed.
#[derive(Clone, Copy, Debug, PartialEq, Eq, Structural)]
pub enum HandleKind {
    /// A volume enumeration: closed with `FindVolumeClose`.
    Search,
    /// A volume or a file: closed with `CloseHandle`.
    File,
}

/// A handle that a call of this resolution opened and none has closed yet.
#[derive(Clone, Copy, Debug, PartialEq, Eq, Structural)]
pub struct Held {
    pub kind: HandleKind,
    pub raw: usize,
}

/// The call that the resolver asks for, or the end of the resolution.
/// Buffers are counted in 16-bit code units; paths and names end with a NUL.
#[derive(Debug)]
pub enum Action {
    /// `FindFirstVolumeW` into a buffer of `capacity` units.
    FindFirstVolume { capacity: u32 },
    /// `FindNextVolumeW` on `search` into a buffer of `capacity` units.
    FindNextVolume { search: usize, capacity: u32 },
    /// `FindVolumeClose` on `search`.
    FindVolumeClose { search: usize },
    /// `GetVolumePathNamesForVolumeNameW` for `volume_name` into a buffer of
    /// `capacity` units.
    VolumePathNames { volume_name: Vec<u16>, capacity: u32 },
    /// `CreateFileW` on `path_name` with the desired `access`, `share_mode`,
    /// creation `disposition` and `flags`; no security attributes and no
    /// template.
    OpenVolume { path_name: Vec<u16>, access: u32, share_mode: u32, disposition: u32, flags: u32 },
    /// `GetFileInformationByHandleEx` on `handle`, for the information of
    /// class `class`.
    FileIdInfo { handle: usize, class: i32 },
    /// `OpenFileById` on `volume`, with a descriptor of the kind `id_type`
    /// that holds `file_id` in the byte order of the machine, and with the
    /// desired `access`, `share_mode` and `flags`; no security attributes.
    OpenFileById {
        volume: usize,
        id_type: i32,
        file_id: u128,
        access: u32,
        share_mode: u32,
        flags: u32,
    },
    /// `GetFinalPathNameByHandleW` on `handle` with `flags`, into a buffer
    /// of `capacity` units.
    FinalPathName { handle: usize, capacity: u32, flags: u32 },
    /// `CloseHandle` on `handle`.
    CloseHandle { handle: usize },
    /// Nothing more: the resolution has ended with this result.
    Return(Result<String, Error>),
}

/// An action as plain values.
pub enum ActionView {
    FindFirstVolume { capacity: u32 },
    FindNextVolume { search: usize, capacity: u32 },
    FindVolumeClose { search: usize },
    VolumePathNames { volume_name: Seq<u16>, capacity: u32 },
    OpenVolume { path_name: Seq<u16>, access: u32, share_mode: u32, disposition: u32, flags: u32 },
    FileIdInfo { handle: usize, class: i32 },
    OpenFileById {
        volume: usize,
        id_type: i32,
        file_id: u128,
        access: u32,
        share_mode: u32,
        flags: u32,
    },
    FinalPathName { handle: usize, capacity: u32, flags: u32 },
    CloseHandle { handle: usize },
    Return(Result<Seq<char>, Error>),
}

impl View for Action {
    type V = ActionView;

    open spec fn view(&self) -> ActionView {
        match *self {
            Action::FindFirstVolume { capacity } => ActionView::FindFirstVolume { capacity },
            Action::FindNextVolume { search, capacity } => ActionView::FindNextVolume {
                search,
                capacity,
            },
            Action::FindVolumeClose { search } => ActionView::FindVolumeClose { search },
            Action::VolumePathNames { volume_name, capacity } => ActionView::VolumePathNames {
                volume_name: volume_name@,
                capacity,
            },
            Action::OpenVolume { path_name, access, share_mode, disposition, flags } => {
                ActionView::OpenVolume {
                    path_name: path_name@,
                    access,
                    share_mode,
                    disposition,
                    flags,
                }
            },
            Action::FileIdInfo { handle, class } => ActionView::FileIdInfo { handle, class },
            Action::OpenFileById { volume, id_type, file_id, access, share_mode, flags } => {
                ActionView::OpenFileById { volume, id_type, file_id, access, share_mode, flags }
            },
            Action::FinalPathName { handle, capacity, flags } => ActionView::FinalPathName {
                handle,
                capacity,
                flags,
            },
            Action::CloseHandle { handle } => ActionView::CloseHandle { handle },
            Action::Return(result) => ActionView::Return(path_view(result)),
        }
    }
}

/// The raw outcome of a call: what it returned, what it wrote, and the
/// system's last error code right after it.
#[derive(Debug)]
pub enum Event {
    /// Of `FindFirstVolumeW`: the handle returned and the buffer.
    FirstVolume { search: usize, volume_name: Vec<u16>, last_error: u32 },
    /// Of `FindNextVolumeW`: the value returned and the buffer.
    NextVolume { ret: i32, volume_name: Vec<u16>, last_error: u32 },
    /// Of `GetVolumePathNamesForVolumeNameW`: the value returned, the buffer
    /// and the length reported.
    PathNames { ret: i32, buffer: Vec<u16>, length: u32, last_error: u32 },
    /// Of `CreateFileW` or `OpenFileById`: the handle returned.
    Opened { handle: usize, last_error: u32 },
    /// Of `GetFileInformationByHandleEx`: the value returned and the volume
    /// serial number written.
    IdInfo { ret: i32, volume_serial_number: u64, last_error: u32 },
    /// Of `GetFinalPathNameByHandleW`: the size returned and the buffer.
    FinalPath { size: u32, buffer: Vec<u16>, last_error: u32 },
    /// Of `CloseHandle` or `FindVolumeClose`.
    Closed,
}

/// An event as plain values.
pub enum EventView {
    FirstVolume { search: usize, volume_name: Seq<u16>, last_error: u32 },
    NextVolume { ret: i32, volume_name: Seq<u16>, last_error: u32 },
    PathNames { ret: i32, buffer: Seq<u16>, length: u32, last_error: u32 },
    Opened { handle: usize, last_error: u32 },
    IdInfo { ret: i32, volume_serial_number: u64, last_error: u32 },
    FinalPath { size: u32, buffer: Seq<u16>, last_error: u32 },
    Closed,
}

impl View for Event {
    type V = EventView;

    open spec fn view(&self) -> EventView {
        match *self {
            Event::FirstVolume { search, volume_name, last_error } => EventView::FirstVolume {
                search,
                volume_name: volume_name@,
                last_error,
            },
            Event::NextVolume { ret, volume_name, last_error } => EventView::NextVolume {
                ret,
                volume_name: volume_name@,
                last_error,
            },
            Event::PathNames { ret, buffer, length, last_error } => EventView::PathNames {
                ret,
                buffer: buffer@,
                length,
                last_error,
            },
            Event::Opened { handle, last_error } => EventView::Opened { handle, last_error },
            Event::IdInfo { ret, volume_serial_number, last_error } => EventView::IdInfo {
                ret,
                volume_serial_number,
                last_error,
            },
            Event::FinalPath { size, buffer, last_error } => EventView::FinalPath {
                size,
                buffer: buffer@,
                last_error,
            },
            Event::Closed => EventView::Closed,
        }
    }
}

/// Where a resolution stands: the call whose outcome it waits for.
#[derive(Debug)]
enum Stage {
    /// The first volume of the enumeration.
    FirstVolume,
    /// The mount paths of the volume `volume_name`.
    PathNames { volume_name: Vec<u16> },
    /// The opening of the mount path `paths[index]`.
    Candidate { paths: Vec<Vec<u16>>, index: usize },
    /// The serial number of the volume opened at `paths[index]`.
    Serial { paths: Vec<Vec<u16>>, index: usize },
    /// The closing of the volume opened at `paths[index]`, which has the
    /// serial number looked for if `matched`.
    CandidateClosing { paths: Vec<Vec<u16>>, index: usize, matched: bool },
    /// The next volume of the enumeration.
    NextVolume,
    /// The closing of the enumeration, the volume being found at `path_name`.
    SearchClosing { path_name: Vec<u16> },
    /// The opening of the volume at `path_name`.
    Volume { path_name: Vec<u16> },
    /// The opening of the file by its id.
    File,
    /// The final path of the file open as `handle`.
    Path { handle: usize },
    /// The closing of the handle last opened, `result` being settled.
    Unwinding { result: Result<String, Error> },
    /// Nothing: the resolution has ended.
    Finished { result: Result<String, Error> },
}

/// A stage as plain values.
pub enum StageView {
    FirstVolume,
    PathNames { volume_name: Seq<u16> },
    Candidate { paths: Seq<Seq<u16>>, index: nat },
    Serial { paths: Seq<Seq<u16>>, index: nat },
    CandidateClosing { paths: Seq<Seq<u16>>, index: nat, matched: bool },
    NextVolume,
    SearchClosing { path_name: Seq<u16> },
    Volume { path_name: Seq<u16> },
    File,
    Path { handle: usize },
    Unwinding { result: Result<Seq<char>, Error> },
    Finished { result: Result<Seq<char>, Error> },
}

impl View for Stage {
    type V = StageView;

    closed spec fn view(&self) -> StageView {
        match *self {
            Stage::FirstVolume => StageView::FirstVolume,
            Stage::PathNames { volume_name } => StageView::PathNames { volume_name: volume_name@ },
            Stage::Candidate { paths, index } => StageView::Candidate {
                paths: names_view(paths@),
                index: index as nat,
            },
            Stage::Serial { paths, index } => StageView::Serial {
                paths: names_view(paths@),
                index: index as nat,
            },
            Stage::CandidateClosing { paths, index, matched } => StageView::CandidateClosing {
                paths: names_view(paths@),
                index: index as nat,
                matched,
            },
            Stage::NextVolume => StageView::NextVolume,
            Stage::SearchClosing { path_name } => StageView::SearchClosing {
                path_name: path_name@,
            },
            Stage::Volume { path_name } => StageView::Volume { path_name: path_name@ },
            Stage::File => StageView::File,
            Stage::Path { handle } => StageView::Path { handle },
            Stage::Unwinding { result } => StageView::Unwinding { result: path_view(result) },
            Stage::Finished { result } => StageView::Finished { result: path_view(result) },
        }
    }
}

/// A resolution in progress.
#[derive(Debug)]
pub struct Resolver {
    /// The file looked for; none where the file is open already.
    target: Option<Target>,
    /// The size of every buffer asked for, in 16-bit code units.
    capacity: u32,
    /// The handles opened and not yet closed, the latest last.
    held: Vec<Held>,
    stage: Stage,
}

/// A resolution in progress, as plain values.
pub struct ResolverView {
    pub target: Option<Target>,
    pub capacity: u32,
    pub held: Seq<Held>,
    pub stage: StageView,
}

impl View for Resolver {
    type V = ResolverView;

    closed spec fn view(&self) -> ResolverView {
        ResolverView {
            target: self.target,
            capacity: self.capacity,
            held: self.held@,
            stage: self.stage@,
        }
    }
}

/// The enumeration handle `raw`, held.
pub open spec fn search_held(raw: usize) -> Held {
    Held { kind: HandleKind::Search, raw }
}

/// The volume or file handle `raw`, held.
pub open spec fn file_held(raw: usize) -> Held {
    Held { kind: HandleKind::File, raw }
}

/// The opening of the volume at the mount path `path_name`: for reading
/// only, shared with readers, of what exists, with backup semantics.
pub open spec fn open_volume(path_name: Seq<u16>) -> ActionView {
    ActionView::OpenVolume {
        path_name,
        access: spec_file_generic_read(),
        share_mode: spec_file_share_read(),
        disposition: spec_open_existing(),
        flags: spec_file_flag_backup_semantics(),
    }
}

/// The query for the volume serial number behind `handle`.
pub open spec fn query_id_info(handle: usize) -> ActionView {
    ActionView::FileIdInfo { handle, class: spec_file_id_info() }
}

/// The opening of the file with the extended id `file_id` on `volume`: for
/// reading only, shared with readers, with backup semantics.
pub open spec fn open_file_by_id(volume: usize, file_id: u128) -> ActionView {
    ActionView::OpenFileById {
        volume,
        id_type: spec_extended_file_id_type(),
        file_id,
        access: spec_file_generic_read(),
        share_mode: spec_file_share_read(),
        flags: spec_file_flag_backup_semantics(),
    }
}

/// The query for the final path of `handle`, in its normalized form, into
/// `capacity` units.
pub open spec fn query_final_path(handle: usize, capacity: u32) -> ActionView {
    ActionView::FinalPathName { handle, capacity, flags: spec_file_name_normalized() }
}

/// The call that closes `held`.
pub open spec fn closing(held: Held) -> ActionView {
    match held.kind {
        HandleKind::Search => ActionView::FindVolumeClose { search: held.raw },
        HandleKind::File => ActionView::CloseHandle { handle: held.raw },
    }
}

impl ResolverView {
    /// The resolution of `target` before its first call.
    pub open spec fn searching(target: Target, capacity: u32) -> ResolverView {
        ResolverView {
            target: Some(target),
            capacity,
            held: Seq::empty(),
            stage: StageView::FirstVolume,
        }
    }

    /// A resolution that has ended with `error` before any call.
    pub open spec fn rejected(error: Error, capacity: u32) -> ResolverView {
        ResolverView {
            target: None,
            capacity,
            held: Seq::empty(),
            stage: StageView::Finished { result: Err(error) },
        }
    }

    /// The resolution of the file that the caller holds open as `handle`.
    pub open spec fn querying(handle: usize, capacity: u32) -> ResolverView {
        ResolverView {
            target: None,
            capacity,
            held: Seq::empty(),
            stage: StageView::Path { handle },
        }
    }

    /// The resolution of `id` before its first call, or ended already where
    /// the identifier is rejected.
    pub open spec fn starting(id: FileId, capacity: u32) -> ResolverView {
        match target_of(id) {
            Ok(target) => ResolverView::searching(target, capacity),
            Err(error) => ResolverView::rejected(error, capacity),
        }
    }

    /// Whether only an enumeration is held.
    pub open spec fn holds_search(self) -> bool {
        self.held.len() == 1 && self.held[0].kind == HandleKind::Search
    }

    /// Whether an enumeration and a volume opened after it are held.
    pub open spec fn holds_candidate(self) -> bool {
        self.held.len() == 2 && self.held[0].kind == HandleKind::Search && self.held[1].kind
            == HandleKind::File
    }

    /// What each stage holds open, and what it looks for.
    pub open spec fn wf(self) -> bool {
        match self.stage {
            StageView::FirstVolume => self.target is Some && self.held.len() == 0,
            StageView::PathNames { .. } => self.target is Some && self.holds_search(),
            StageView::Candidate { paths, index } => self.target is Some && self.holds_search()
                && index < paths.len(),
            StageView::Serial { paths, index } => self.target is Some && self.holds_candidate()
                && index < paths.len(),
            StageView::CandidateClosing { paths, index, .. } => self.target is Some
                && self.holds_candidate() && index < paths.len(),
            StageView::NextVolume => self.target is Some && self.holds_search(),
            StageView::SearchClosing { .. } => self.target is Some && self.holds_search(),
            StageView::Volume { .. } => self.target is Some && self.held.len() == 0,
            StageView::File => self.target is Some && self.held.len() == 1 && self.held[0].kind
                == HandleKind::File,
            StageView::Path { handle } => self.held.len() == 0 || (self.held.len() == 2
                && self.held[0].kind == HandleKind::File && self.held[1] == file_held(handle)),
            StageView::Unwinding { .. } => self.held.len() > 0,
            StageView::Finished { .. } => self.held.len() == 0,
        }
    }

    /// The result once it is settled: nothing changes it any more.
    pub open spec fn outcome(self) -> Option<Result<Seq<char>, Error>> {
        match self.stage {
            StageView::Unwinding { result } => Some(result),
            StageView::Finished { result } => Some(result),
            _ => None,
        }
    }

    /// The call that the resolution waits for.
    pub open spec fn action(self) -> ActionView {
        match self.stage {
            StageView::FirstVolume => ActionView::FindFirstVolume { capacity: self.capacity },
            StageView::PathNames { volume_name } => ActionView::VolumePathNames {
                volume_name,
                capacity: self.capacity,
            },
            StageView::Candidate { paths, index } => open_volume(paths[index as int]),
            StageView::Serial { .. } => query_id_info(self.held.last().raw),
            StageView::CandidateClosing { .. } => closing(self.held.last()),
            StageView::NextVolume => ActionView::FindNextVolume {
                search: self.held.last().raw,
                capacity: self.capacity,
            },
            StageView::SearchClosing { .. } => closing(self.held.last()),
            StageView::Volume { path_name } => open_volume(path_name),
            StageView::File => open_file_by_id(
                self.held.last().raw,
                self.target.unwrap().file_id,
            ),
            StageView::Path { handle } => query_final_path(handle, self.capacity),
            StageView::Unwinding { .. } => closing(self.held.last()),
            StageView::Finished { result } => ActionView::Return(result),
        }
    }

    /// The resolution at `stage`, holding what it holds.
    pub open spec fn at(self, stage: StageView) -> ResolverView {
        ResolverView { stage, ..self }
    }

    /// The resolution once `result` is settled: what is still held is closed
    /// first, the latest first.
    pub open spec fn settle(self, result: Result<Seq<char>, Error>) -> ResolverView {
        if self.held.len() == 0 {
            self.at(StageView::Finished { result })
        } else {
            self.at(StageView::Unwinding { result })
        }
    }

    /// The resolution once the handle `held` is open.
    pub open spec fn holding(self, held: Held) -> ResolverView {
        ResolverView { held: self.held.push(held), ..self }
    }

    /// The resolution once the handle last opened is closed.
    pub open spec fn released(self) -> ResolverView {
        ResolverView { held: self.held.drop_last(), ..self }
    }

    /// The resolution turned to the mount path `paths[index]`, or to the
    /// next volume where the paths have run out.
    pub open spec fn examine(self, paths: Seq<Seq<u16>>, index: nat) -> ResolverView {
        if index < paths.len() {
            self.at(StageView::Candidate { paths, index })
        } else {
            self.at(StageView::NextVolume)
        }
    }

    /// The resolution after the outcome `event` of the call it waited for.
    /// An event that is not of that call changes nothing.
    pub open spec fn next(self, event: EventView) -> ResolverView {
        match (self.stage, event) {
            (
                StageView::FirstVolume,
                EventView::FirstVolume { search, volume_name, last_error },
            ) => {
                match opened(search, Error::FindVolume(Cause::Os(last_error))) {
                    Ok(raw) => self.holding(search_held(raw)).at(
                        StageView::PathNames { volume_name },
                    ),
                    Err(error) => self.settle(Err(error)),
                }
            },
            (
                StageView::PathNames { .. },
                EventView::PathNames { ret, buffer, length, last_error },
            ) => {
                match volume_path_names(ret, buffer, length, last_error) {
                    Ok(paths) => self.examine(paths, 0),
                    Err(error) => self.settle(Err(error)),
                }
            },
            (StageView::Candidate { paths, index }, EventView::Opened { handle, last_error }) => {
                match opened(handle, Error::VolumeHandle(Cause::Os(last_error))) {
                    Ok(raw) => self.holding(file_held(raw)).at(StageView::Serial { paths, index }),
                    Err(error) => self.settle(Err(error)),
                }
            },
            (
                StageView::Serial { paths, index },
                EventView::IdInfo { ret, volume_serial_number, last_error },
            ) => {
                match serial_number(ret, volume_serial_number, last_error) {
                    Ok(serial) => self.at(
                        StageView::CandidateClosing {
                            paths,
                            index,
                            matched: serial == self.target.unwrap().volume_serial_number,
                        },
                    ),
                    Err(error) => self.settle(Err(error)),
                }
            },
            (StageView::CandidateClosing { paths, index, matched }, EventView::Closed) => {
                if matched {
                    self.released().at(StageView::SearchClosing { path_name: paths[index as int] })
                } else {
                    self.released().examine(paths, index + 1)
                }
            },
            (StageView::NextVolume, EventView::NextVolume { ret, volume_name, last_error }) => {
                match next_volume(ret, last_error) {
                    Ok(_) => self.at(StageView::PathNames { volume_name }),
                    Err(error) => self.settle(Err(error)),
                }
            },
            (StageView::SearchClosing { path_name }, EventView::Closed) => {
                self.released().at(StageView::Volume { path_name })
            },
            (StageView::Volume { .. }, EventView::Opened { handle, last_error }) => {
                match opened(handle, Error::VolumeHandle(Cause::Os(last_error))) {
                    Ok(raw) => self.holding(file_held(raw)).at(StageView::File),
                    Err(error) => self.settle(Err(error)),
                }
            },
            (StageView::File, EventView::Opened { handle, last_error }) => {
                match opened(handle, Error::OpenFile(Cause::Os(last_error))) {
                    Ok(raw) => self.holding(file_held(raw)).at(StageView::Path { handle: raw }),
                    Err(error) => self.settle(Err(error)),
                }
            },
            (StageView::Path { .. }, EventView::FinalPath { size, buffer, last_error }) => {
                self.settle(final_path(size, buffer, last_error))
            },
            (StageView::Unwinding { result }, EventView::Closed) => {
                self.released().settle(result)
            },
            _ => self,
        }
    }
}

/// The stage once `result` is settled, `held` being what is still open.
fn settled(held: &Vec<Held>, result: Result<String, Error>) -> (stage: Stage)
    ensures
        stage@ == if held@.len() == 0 {
            StageView::Finished { result: path_view(result) }
        } else {
            StageView::Unwinding { result: path_view(result) }
        },
{
    if held.len() == 0 {
        Stage::Finished { result }
    } else {
        Stage::Unwinding { result }
    }
}

/// The stage that turns to the mount path `paths[index]`, or to the next
/// volume where the paths have run out.
fn examining(paths: Vec<Vec<u16>>, index: usize) -> (stage: Stage)
    ensures
        stage@ == if index < paths@.len() {
            StageView::Candidate { paths: names_view(paths@), index: index as nat }
        } else {
            StageView::NextVolume
        },
{
    if index < paths.len() {
        Stage::Candidate { paths, index }
    } else {
        Stage::NextVolume
    }
}

/// The opening of the volume at the mount path `path_name`.
fn volume_opening(path_name: Vec<u16>) -> (action: Action)
    ensures
        action@ == open_volume(path_name@),
{
    Action::OpenVolume {
        path_name,
        access: file_generic_read(),
        share_mode: file_share_read(),
        disposition: open_existing(),
        flags: file_flag_backup_semantics(),
    }
}

/// The opening of the file with the extended id `file_id` on `volume`.
fn file_opening(volume: usize, file_id: u128) -> (action: Action)
    ensures
        action@ == open_file_by_id(volume, file_id),
{
    Action::OpenFileById {
        volume,
        id_type: extended_file_id_type(),
        file_id,
        access: file_generic_read(),
        share_mode: file_share_read(),
        flags: file_flag_backup_semantics(),
    }
}

/// The call that closes `held`.
fn close(held: Held) -> (action: Action)
    ensures
        action@ == closing(held),
{
    match held.kind {
        HandleKind::Search => Action::FindVolumeClose { search: held.raw },
        HandleKind::File => Action::CloseHandle { handle: held.raw },
    }
}

/// A copy of `result`.
fn copy_result(result: &Result<String, Error>) -> (copy: Result<String, Error>)
    ensures
        path_view(copy) == path_view(*result),
{
    match result {
        Ok(path) => Ok(path.clone()),
        Err(error) => Err(*error),
    }
}

impl Resolver {
    #[verifier::type_invariant]
    spec fn inv(self) -> bool {
        self@.wf()
    }

    /// The resolution of `id` before its first call, with buffers of
    /// `capacity` units; ended already where the identifier is rejected.
    pub fn start(id: &FileId, capacity: u32) -> (resolver: Resolver)
        ensures
            resolver@ == ResolverView::starting(*id, capacity),
            resolver@.wf(),
    {
        match file_target(id) {
            Ok(target) => Resolver {
                target: Some(target),
                capacity,
                held: Vec::new(),
                stage: Stage::FirstVolume,
            },
            Err(error) => Resolver {
                target: None,
                capacity,
                held: Vec::new(),
                stage: Stage::Finished { result: Err(error) },
            },
        }
    }

    /// The resolution of the file that the caller holds open as `handle`,
    /// with a buffer of `capacity` units. The handle stays the caller's.
    pub fn query(handle: usize, capacity: u32) -> (resolver: Resolver)
        ensures
            resolver@ == ResolverView::querying(handle, capacity),
            resolver@.wf(),
    {
        Resolver { target: None, capacity, held: Vec::new(), stage: Stage::Path { handle } }
    }

    /// The call that the resolution waits for, or its end.
    pub fn action(&self) -> (action: Action)
        ensures
            action@ == self@.action(),
            self@.wf(),
    {
        proof {
            use_type_invariant(self);
        }
        match &self.stage {
            Stage::FirstVolume => Action::FindFirstVolume { capacity: self.capacity },
            Stage::PathNames { volume_name } => Action::VolumePathNames {
                volume_name: copy_units(volume_name),
                capacity: self.capacity,
            },
            Stage::Candidate { paths, index } => volume_opening(copy_units(&paths[*index])),
            Stage::Serial { .. } => Action::FileIdInfo {
                handle: self.held[self.held.len() - 1].raw,
                class: file_id_info(),
            },
            Stage::CandidateClosing { .. } => close(self.held[self.held.len() - 1]),
            Stage::NextVolume => Action::FindNextVolume {
                search: self.held[self.held.len() - 1].raw,
                capacity: self.capacity,
            },
            Stage::SearchClosing { .. } => close(self.held[self.held.len() - 1]),
            Stage::Volume { path_name } => volume_opening(copy_units(path_name)),
            Stage::File => file_opening(
                self.held[self.held.len() - 1].raw,
                self.target.unwrap().file_id,
            ),
            Stage::Path { handle } => Action::FinalPathName {
                handle: *handle,
                capacity: self.capacity,
                flags: file_name_normalized(),
            },
            Stage::Unwinding { .. } => close(self.held[self.held.len() - 1]),
            Stage::Finished { result } => Action::Return(copy_result(result)),
        }
    }

    /// Takes the outcome `event` of the call that the resolution waited for.
    /// An event that is not of that call changes nothing.
    pub fn advance(self, event: Event) -> (next: Resolver)
        ensures
            next@ == self@.next(event@),
            self@.wf(),
            next@.wf(),
    {
        proof {
            use_type_invariant(&self);
        }
        let Resolver { target, capacity, held, stage } = self;
        let mut held = held;
        let stage = match (stage, event) {
            (Stage::FirstVolume, Event::FirstVolume { search, volume_name, last_error }) => {
                match find_first_volume(search, last_error) {
                    Ok(raw) => {
                        held.push(Held { kind: HandleKind::Search, raw });
                        Stage::PathNames { volume_name }
                    },
                    Err(error) => settled(&held, Err(error)),
                }
            },
            (Stage::PathNames { .. }, Event::PathNames { ret, buffer, length, last_error }) => {
                match get_volume_path_names(ret, &buffer, length, last_error) {
                    Ok(paths) => examining(paths, 0),
                    Err(error) => settled(&held, Err(error)),
                }
            },
            (Stage::Candidate { paths, index }, Event::Opened { handle, last_error }) => {
                match get_volume_handle_from_path(handle, last_error) {
                    Ok(raw) => {
                        held.push(Held { kind: HandleKind::File, raw });
                        Stage::Serial { paths, index }
                    },
                    Err(error) => settled(&held, Err(error)),
                }
            },
            (
                Stage::Serial { paths, index },
                Event::IdInfo { ret, volume_serial_number, last_error },
            ) => {
                match get_volume_serial_number_from_path(ret, volume_serial_number, last_error) {
                    Ok(serial) => Stage::CandidateClosing {
                        paths,
                        index,
                        matched: serial == target.unwrap().volume_serial_number,
                    },
                    Err(error) => settled(&held, Err(error)),
                }
            },
            (Stage::CandidateClosing { paths, index, matched }, Event::Closed) => {
                assert(index < names_view(paths@).len() == paths.len());
                held.pop();
                if matched {
                    Stage::SearchClosing { path_name: copy_units(&paths[index]) }
                } else {
                    examining(paths, index + 1)
                }
            },
            (Stage::NextVolume, Event::NextVolume { ret, volume_name, last_error }) => {
                match find_next_volume(ret, last_error) {
                    Ok(_) => Stage::PathNames { volume_name },
                    Err(error) => settled(&held, Err(error)),
                }
            },
            (Stage::SearchClosing { path_name }, Event::Closed) => {
                held.pop();
                Stage::Volume { path_name }
            },
            (Stage::Volume { .. }, Event::Opened { handle, last_error }) => {
                match get_volume_handle_from_path(handle, last_error) {
                    Ok(raw) => {
                        held.push(Held { kind: HandleKind::File, raw });
                        Stage::File
                    },
                    Err(error) => settled(&held, Err(error)),
                }
            },
            (Stage::File, Event::Opened { handle, last_error }) => {
                match file_handle_from_id(handle, last_error) {
                    Ok(raw) => {
                        held.push(Held { kind: HandleKind::File, raw });
                        Stage::Path { handle: raw }
                    },
                    Err(error) => settled(&held, Err(error)),
                }
            },
            (Stage::Path { .. }, Event::FinalPath { size, buffer, last_error }) => {
                settled(&held, path_from_handle(size, &buffer, last_error))
            },
            (Stage::Unwinding { result }, Event::Closed) => {
                held.pop();
                settled(&held, result)
            },
            (stage, _) => stage,
        };
        let next = Resolver { target, capacity, held, stage };
        next
    }
}

} // verus!
