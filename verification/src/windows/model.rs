//! The whole resolution on a host whose calls all succeed.
//!
//! The host is a model: its volumes in the order of their enumeration, what
//! the listing of each volume writes, and the serial number that each volume
//! reports through each of its mount paths. Against it the resolver finds the
//! first mount path, in that order, that reports the serial number looked for.

use crate::limits::{spec_invalid_handle, spec_no_more_files};
use crate::windows::resolver::{open_volume, ActionView, EventView, ResolverView, StageView};
use crate::windows::{final_path, mount_paths, Cause, Error, Target};
use vstd::prelude::*;

verus! {

/// A volume of the host.
pub struct VolumeModel {
    /// The name under which the enumeration gives the volume.
    pub name: Seq<u16>,
    /// What the listing of the volume's mount paths writes.
    pub buffer: Seq<u16>,
    /// The length that the listing reports.
    pub length: u32,
    /// The serial number that the volume reports through each of its mount
    /// paths, in the order of the listing.
    pub serials: Seq<u64>,
}

impl VolumeModel {
    /// The mount paths of the volume, in the order of the listing.
    pub open spec fn paths(self) -> Seq<Seq<u16>> {
        mount_paths(self.buffer.take(self.length as int))
    }

    /// The listing fits its buffer, and every mount path reports a serial
    /// number.
    pub open spec fn wf(self) -> bool {
        self.length <= self.buffer.len() && self.serials.len() == self.paths().len()
    }

    /// The first mount path of the volume that reports `serial`.
    pub open spec fn mount_of(self, serial: u64) -> Option<Seq<u16>> {
        let k = first_from(self.serials, serial, 0);
        if k < self.serials.len() {
            Some(self.paths()[k as int])
        } else {
            None
        }
    }
}

/// The first index from `from` on at which `serials` holds `serial`, or the
/// length of `serials` where there is none.
pub open spec fn first_from(serials: Seq<u64>, serial: u64, from: nat) -> nat
    decreases serials.len() - from,
{
    if from >= serials.len() {
        serials.len()
    } else if serials[from as int] == serial {
        from
    } else {
        first_from(serials, serial, from + 1)
    }
}

/// The mount path at which the volume with `serial` is found: the first
/// that reports it, of the first volume from `from` on that has one.
pub open spec fn located_from(volumes: Seq<VolumeModel>, serial: u64, from: nat) -> Option<
    Seq<u16>,
>
    decreases volumes.len() - from,
{
    if from >= volumes.len() {
        None
    } else {
        match volumes[from as int].mount_of(serial) {
            Some(path) => Some(path),
            None => located_from(volumes, serial, from + 1),
        }
    }
}

/// A host on which every call succeeds.
pub struct HostModel {
    /// The volumes, in the order of their enumeration.
    pub volumes: Seq<VolumeModel>,
    /// The handle of the enumeration.
    pub search: usize,
    /// The handle of each volume that is opened.
    pub volume: usize,
    /// The handle of the file, opened by its id.
    pub file: usize,
    /// The size that the query for the file's final path returns.
    pub size: u32,
    /// What the query for the file's final path writes.
    pub buffer: Seq<u16>,
}

impl HostModel {
    /// There is a volume, every volume is well-formed, and every handle is
    /// a handle.
    pub open spec fn wf(self) -> bool {
        &&& self.volumes.len() > 0
        &&& forall|i: int| 0 <= i < self.volumes.len() ==> (#[trigger] self.volumes[i]).wf()
        &&& self.search != spec_invalid_handle()
        &&& self.volume != spec_invalid_handle()
        &&& self.file != spec_invalid_handle()
    }

    /// The mount path at which the volume with `serial` is found.
    pub open spec fn located(self, serial: u64) -> Option<Seq<u16>> {
        located_from(self.volumes, serial, 0)
    }

    /// What the resolution of a file on the volume with `serial` comes to.
    pub open spec fn result(self, serial: u64) -> Result<Seq<char>, Error> {
        match self.located(serial) {
            Some(_) => final_path(self.size, self.buffer, 0),
            None => Err(Error::FindVolume(Cause::NotFound)),
        }
    }
}

/// The resolution after the mount path that it waits for is opened as
/// `handle`, has reported `serial` and is closed again.
pub open spec fn after_mount(s: ResolverView, handle: usize, serial: u64) -> ResolverView {
    s.next(EventView::Opened { handle, last_error: 0 }).next(
        EventView::IdInfo { ret: 1, volume_serial_number: serial, last_error: 0 },
    ).next(EventView::Closed)
}

/// The resolution after the mount paths from `from` on are examined, as far
/// as the resolver asks for them.
pub open spec fn after_mounts(s: ResolverView, serials: Seq<u64>, handle: usize, from: nat)
    -> ResolverView
    decreases serials.len() - from,
{
    if from >= serials.len() || !(s.stage is Candidate) {
        s
    } else {
        after_mounts(after_mount(s, handle, serials[from as int]), serials, handle, from + 1)
    }
}

/// The resolution after the volume `v` is listed and examined.
pub open spec fn after_volume(s: ResolverView, v: VolumeModel, handle: usize) -> ResolverView {
    after_mounts(
        s.next(
            EventView::PathNames { ret: 1, buffer: v.buffer, length: v.length, last_error: 0 },
        ),
        v.serials,
        handle,
        0,
    )
}

/// The resolution after the volumes from `from` on are enumerated, as far
/// as the resolver asks for them.
pub open spec fn after_volumes(
    s: ResolverView,
    volumes: Seq<VolumeModel>,
    handle: usize,
    from: nat,
) -> ResolverView
    decreases volumes.len() - from,
{
    if from >= volumes.len() {
        s
    } else {
        let t = after_volume(s, volumes[from as int], handle);
        if !(t.stage is NextVolume) {
            t
        } else if from + 1 < volumes.len() {
            after_volumes(
                t.next(
                    EventView::NextVolume {
                        ret: 1,
                        volume_name: volumes[from as int + 1].name,
                        last_error: 0,
                    },
                ),
                volumes,
                handle,
                from + 1,
            )
        } else {
            t.next(
                EventView::NextVolume {
                    ret: 0,
                    volume_name: Seq::empty(),
                    last_error: spec_no_more_files(),
                },
            )
        }
    }
}

/// The resolution of `target` once the search for its volume is over.
pub open spec fn after_search(host: HostModel, target: Target, capacity: u32) -> ResolverView {
    after_volumes(
        ResolverView::searching(target, capacity).next(
            EventView::FirstVolume {
                search: host.search,
                volume_name: host.volumes[0].name,
                last_error: 0,
            },
        ),
        host.volumes,
        host.volume,
        0,
    )
}

/// The resolution of `target` once the file is opened and its final path
/// queried, the volume being found.
pub open spec fn after_query(host: HostModel, target: Target, capacity: u32) -> ResolverView {
    after_search(host, target, capacity).next(EventView::Closed).next(
        EventView::Opened { handle: host.volume, last_error: 0 },
    ).next(EventView::Opened { handle: host.file, last_error: 0 }).next(
        EventView::FinalPath { size: host.size, buffer: host.buffer, last_error: 0 },
    )
}

/// A mount path decides the search if it reports the serial number looked
/// for, and leaves it to the next mount path or the next volume if not.
pub proof fn lemma_after_mount(s: ResolverView, handle: usize, serial: u64)
    requires
        s.wf(),
        s.stage is Candidate,
        handle != spec_invalid_handle(),
    ensures
        after_mount(s, handle, serial) == if serial == s.target->0.volume_serial_number {
            s.at(
                StageView::SearchClosing {
                    path_name: s.stage->Candidate_paths[s.stage->Candidate_index as int],
                },
            )
        } else {
            s.examine(s.stage->Candidate_paths, s.stage->Candidate_index + 1)
        },
        after_mount(s, handle, serial).wf(),
{
    let opened = s.next(EventView::Opened { handle, last_error: 0 });
    assert(opened.held.drop_last() == s.held);
}

/// The mount paths of a volume are examined in their order until one
/// reports the serial number looked for.
pub proof fn lemma_after_mounts(s: ResolverView, serials: Seq<u64>, handle: usize)
    requires
        s.wf(),
        s.stage is Candidate,
        serials.len() == s.stage->Candidate_paths.len(),
        handle != spec_invalid_handle(),
    ensures
        ({
            let paths = s.stage->Candidate_paths;
            let first = first_from(
                serials,
                s.target->0.volume_serial_number,
                s.stage->Candidate_index,
            );
            after_mounts(s, serials, handle, s.stage->Candidate_index) == if first < paths.len() {
                s.at(StageView::SearchClosing { path_name: paths[first as int] })
            } else {
                s.at(StageView::NextVolume)
            }
        }),
    decreases serials.len() - s.stage->Candidate_index,
{
    reveal_with_fuel(after_mounts, 2);
    reveal_with_fuel(first_from, 2);
    let index = s.stage->Candidate_index;
    let t = after_mount(s, handle, serials[index as int]);
    lemma_after_mount(s, handle, serials[index as int]);
    if t.stage is Candidate {
        lemma_after_mounts(t, serials, handle);
        assert(t.at(StageView::NextVolume) == s.at(StageView::NextVolume));
    }
}

/// A volume decides the search if one of its mount paths reports the serial
/// number looked for, and leaves it to the next volume if not.
pub proof fn lemma_after_volume(s: ResolverView, v: VolumeModel, handle: usize)
    requires
        s.wf(),
        s.stage is PathNames,
        v.wf(),
        handle != spec_invalid_handle(),
    ensures
        after_volume(s, v, handle) == match v.mount_of(s.target->0.volume_serial_number) {
            Some(path_name) => s.at(StageView::SearchClosing { path_name }),
            None => s.at(StageView::NextVolume),
        },
{
    let t = s.next(
        EventView::PathNames { ret: 1, buffer: v.buffer, length: v.length, last_error: 0 },
    );
    if t.stage is Candidate {
        lemma_after_mounts(t, v.serials, handle);
        assert(t.at(StageView::NextVolume) == s.at(StageView::NextVolume));
    }
}

/// The volumes are examined in the order of their enumeration until one
/// decides the search; where none does, the volume is not found.
pub proof fn lemma_after_volumes(
    s: ResolverView,
    volumes: Seq<VolumeModel>,
    handle: usize,
    from: nat,
)
    requires
        s.wf(),
        s.stage is PathNames,
        from < volumes.len(),
        forall|i: int| 0 <= i < volumes.len() ==> (#[trigger] volumes[i]).wf(),
        handle != spec_invalid_handle(),
    ensures
        after_volumes(s, volumes, handle, from) == match located_from(
            volumes,
            s.target->0.volume_serial_number,
            from,
        ) {
            Some(path_name) => s.at(StageView::SearchClosing { path_name }),
            None => s.at(
                StageView::Unwinding { result: Err(Error::FindVolume(Cause::NotFound)) },
            ),
        },
    decreases volumes.len() - from,
{
    reveal_with_fuel(after_volumes, 2);
    reveal_with_fuel(located_from, 2);
    let t = after_volume(s, volumes[from as int], handle);
    lemma_after_volume(s, volumes[from as int], handle);
    if t.stage is NextVolume && from + 1 < volumes.len() {
        let u = t.next(
            EventView::NextVolume {
                ret: 1,
                volume_name: volumes[from as int + 1].name,
                last_error: 0,
            },
        );
        lemma_after_volumes(u, volumes, handle, from + 1);
    }
}

/// On a host whose calls all succeed, the search ends at the first mount
/// path, in the order of enumeration and listing, whose volume reports the
/// serial number looked for: the resolver then holds the enumeration alone
/// and waits for it to close. Where no mount path reports the serial number,
/// the result is settled as not found.
pub proof fn lemma_search_finds_the_first_match(host: HostModel, target: Target, capacity: u32)
    requires
        host.wf(),
    ensures
        ({
            let found = after_search(host, target, capacity);
            &&& found.wf()
            &&& found.held.len() == 1
            &&& found.action() == ActionView::FindVolumeClose { search: host.search }
            &&& match host.located(target.volume_serial_number) {
                Some(path_name) => {
                    &&& found.stage == StageView::SearchClosing { path_name }
                    &&& found.next(EventView::Closed).action() == open_volume(path_name)
                },
                None => found.outcome() == Some(
                    Err::<Seq<char>, Error>(Error::FindVolume(Cause::NotFound)),
                ),
            }
        }),
{
    let first = ResolverView::searching(target, capacity).next(
        EventView::FirstVolume {
            search: host.search,
            volume_name: host.volumes[0].name,
            last_error: 0,
        },
    );
    lemma_after_volumes(first, host.volumes, host.volume, 0);
}

/// On a host whose calls all succeed, the resolution returns what the host
/// comes to: the final path of the file, decoded, where a mount path reports
/// the serial number looked for, and not found where none does. It returns
/// after every handle that it opened is closed.
pub proof fn lemma_resolution_returns_the_result(host: HostModel, target: Target, capacity: u32)
    requires
        host.wf(),
    ensures
        ({
            let serial = target.volume_serial_number;
            let ended = if host.located(serial) is Some {
                after_query(host, target, capacity).next(EventView::Closed).next(
                    EventView::Closed,
                )
            } else {
                after_search(host, target, capacity).next(EventView::Closed)
            };
            &&& ended.action() == ActionView::Return(host.result(serial))
            &&& ended.held.len() == 0
        }),
{
    lemma_search_finds_the_first_match(host, target, capacity);
    let found = after_search(host, target, capacity);
    if host.located(target.volume_serial_number) is Some {
        let closed = found.next(EventView::Closed);
        assert(closed.held.len() == 0);
        let volume = closed.next(EventView::Opened { handle: host.volume, last_error: 0 });
        let file = volume.next(EventView::Opened { handle: host.file, last_error: 0 });
        assert(file.held.len() == 2);
        let queried = file.next(
            EventView::FinalPath { size: host.size, buffer: host.buffer, last_error: 0 },
        );
        assert(queried.held.len() == 2);
        let once = queried.next(EventView::Closed);
        assert(once.held.len() == 1);
    } else {
        assert(found.next(EventView::Closed).held.len() == 0);
    }
}

/// How many serial numbers are asked for while the mount paths from `from`
/// on are examined: one for each mount path that the resolver opens.
pub open spec fn mounts_queried(s: ResolverView, serials: Seq<u64>, handle: usize, from: nat)
    -> nat
    decreases serials.len() - from,
{
    if from >= serials.len() || !(s.stage is Candidate) {
        0
    } else {
        1 + mounts_queried(
            after_mount(s, handle, serials[from as int]),
            serials,
            handle,
            from + 1,
        )
    }
}

/// What a search costs in calls.
pub struct Tally {
    /// The listings of a volume's mount paths.
    pub listings: nat,
    /// The steps of the enumeration after its first: the requests for the
    /// next volume, the one that finds no more among them.
    pub steps: nat,
    /// The queries for a serial number, each on a mount path just opened.
    pub queries: nat,
}

/// The calls that the search makes while the volumes from `from` on are
/// enumerated, as far as the resolver asks for them.
pub open spec fn tally(s: ResolverView, volumes: Seq<VolumeModel>, handle: usize, from: nat)
    -> Tally
    decreases volumes.len() - from,
{
    if from >= volumes.len() {
        Tally { listings: 0, steps: 0, queries: 0 }
    } else {
        let v = volumes[from as int];
        let listed = s.next(
            EventView::PathNames { ret: 1, buffer: v.buffer, length: v.length, last_error: 0 },
        );
        let queries = mounts_queried(listed, v.serials, handle, 0);
        let t = after_volume(s, v, handle);
        if !(t.stage is NextVolume) {
            Tally { listings: 1, steps: 0, queries }
        } else if from + 1 < volumes.len() {
            let rest = tally(
                t.next(
                    EventView::NextVolume {
                        ret: 1,
                        volume_name: volumes[from as int + 1].name,
                        last_error: 0,
                    },
                ),
                volumes,
                handle,
                from + 1,
            );
            Tally {
                listings: 1 + rest.listings,
                steps: 1 + rest.steps,
                queries: queries + rest.queries,
            }
        } else {
            Tally { listings: 1, steps: 1, queries }
        }
    }
}

/// The number of mount paths of the volumes from `from` on.
pub open spec fn mounts_from(volumes: Seq<VolumeModel>, from: nat) -> nat
    decreases volumes.len() - from,
{
    if from >= volumes.len() {
        0
    } else {
        volumes[from as int].serials.len() + mounts_from(volumes, from + 1)
    }
}

/// No mount path of a volume is opened twice: the serial numbers asked for
/// are at most as many as the mount paths still to examine.
pub proof fn lemma_mounts_queried_once(s: ResolverView, serials: Seq<u64>, handle: usize)
    requires
        s.wf(),
        s.stage is Candidate,
        serials.len() == s.stage->Candidate_paths.len(),
        handle != spec_invalid_handle(),
    ensures
        mounts_queried(s, serials, handle, s.stage->Candidate_index) <= serials.len()
            - s.stage->Candidate_index,
    decreases serials.len() - s.stage->Candidate_index,
{
    reveal_with_fuel(mounts_queried, 2);
    let index = s.stage->Candidate_index;
    let t = after_mount(s, handle, serials[index as int]);
    lemma_after_mount(s, handle, serials[index as int]);
    if t.stage is Candidate {
        lemma_mounts_queried_once(t, serials, handle);
    }
}

/// The search visits no volume and no mount path twice: from any volume of
/// the enumeration on, it lists at most each volume that is left once, asks
/// for the next volume at most once for each, and asks for at most one
/// serial number for each of their mount paths.
pub proof fn lemma_tally_is_bounded(
    s: ResolverView,
    volumes: Seq<VolumeModel>,
    handle: usize,
    from: nat,
)
    requires
        s.wf(),
        s.stage is PathNames,
        from < volumes.len(),
        forall|i: int| 0 <= i < volumes.len() ==> (#[trigger] volumes[i]).wf(),
        handle != spec_invalid_handle(),
    ensures
        tally(s, volumes, handle, from).listings <= volumes.len() - from,
        tally(s, volumes, handle, from).steps <= tally(s, volumes, handle, from).listings,
        tally(s, volumes, handle, from).queries <= mounts_from(volumes, from),
    decreases volumes.len() - from,
{
    reveal_with_fuel(tally, 2);
    reveal_with_fuel(mounts_from, 2);
    let v = volumes[from as int];
    let listed = s.next(
        EventView::PathNames { ret: 1, buffer: v.buffer, length: v.length, last_error: 0 },
    );
    if listed.stage is Candidate {
        lemma_mounts_queried_once(listed, v.serials, handle);
    }
    let t = after_volume(s, v, handle);
    lemma_after_volume(s, v, handle);
    if t.stage is NextVolume && from + 1 < volumes.len() {
        let u = t.next(
            EventView::NextVolume {
                ret: 1,
                volume_name: volumes[from as int + 1].name,
                last_error: 0,
            },
        );
        lemma_tally_is_bounded(u, volumes, handle, from + 1);
    }
}

/// On a host of `k` volumes whose calls all succeed, the search ends after
/// at most `k` listings, at most `k` requests for the next volume, and at
/// most one query for a serial number for each mount path of the host,
/// however many mount paths a volume has.
pub proof fn lemma_search_is_bounded(host: HostModel, target: Target, capacity: u32)
    requires
        host.wf(),
    ensures
        ({
            let first = ResolverView::searching(target, capacity).next(
                EventView::FirstVolume {
                    search: host.search,
                    volume_name: host.volumes[0].name,
                    last_error: 0,
                },
            );
            let cost = tally(first, host.volumes, host.volume, 0);
            &&& cost.listings <= host.volumes.len()
            &&& cost.steps <= host.volumes.len()
            &&& cost.queries <= mounts_from(host.volumes, 0)
        }),
{
    let first = ResolverView::searching(target, capacity).next(
        EventView::FirstVolume {
            search: host.search,
            volume_name: host.volumes[0].name,
            last_error: 0,
        },
    );
    lemma_tally_is_bounded(first, host.volumes, host.volume, 0);
}

} // verus!
