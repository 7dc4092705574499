use file_path_from_id::id::FileId;
use file_path_from_id::kind::ErrorKind;
use file_path_from_id::windows::resolver::{Action, Event, Resolver};
use file_path_from_id::windows::{path_from_file, path_from_id, Cause, Error};

const INVALID: usize = usize::MAX;
const NO_MORE_FILES: u32 = 18;

fn wide(text: &str) -> Vec<u16> {
    text.encode_utf16().chain(std::iter::once(0)).collect()
}

fn filled(units: &[u16], capacity: u32) -> Vec<u16> {
    let mut buffer = units.to_vec();
    while buffer.len() < capacity as usize {
        buffer.push(0);
    }
    buffer
}

struct Mount {
    path: &'static str,
    serial: u64,
}

struct Volume {
    name: &'static str,
    mounts: Vec<Mount>,
}

struct File {
    serial: u64,
    id: u128,
    path: Vec<u16>,
}

#[derive(Clone, Copy, PartialEq, Debug)]
enum Open {
    Search,
    Volume(u64),
    File(usize),
}

#[derive(Default)]
struct Faults {
    first_volume: Option<u32>,
    next_volume: Option<u32>,
    path_names: Option<u32>,
    open_volume: Option<(usize, u32)>,
    id_info: Option<u32>,
    final_path: Option<u32>,
}

struct Host {
    stale: u32,
    volumes: Vec<Volume>,
    files: Vec<File>,
    faults: Faults,
    cursor: usize,
    open: Vec<(usize, Open)>,
    issued: usize,
    opened_paths: Vec<String>,
    calls: Vec<&'static str>,
}

impl Host {
    fn new(volumes: Vec<Volume>, files: Vec<File>) -> Host {
        Host {
            stale: 87,
            volumes,
            files,
            faults: Faults::default(),
            cursor: 0,
            open: Vec::new(),
            issued: 0,
            opened_paths: Vec::new(),
            calls: Vec::new(),
        }
    }

    fn hand_out(&mut self, what: Open) -> usize {
        self.issued += 1;
        let raw = 0x100 + 4 * self.issued;
        self.open.push((raw, what));
        raw
    }

    fn look_up(&self, raw: usize) -> Open {
        self.open.iter().find(|(h, _)| *h == raw).expect("the handle is open").1
    }

    fn close(&mut self, raw: usize, search: bool) {
        let at = self.open.iter().position(|(h, _)| *h == raw).expect("the handle is open");
        assert_eq!(self.open[at].1 == Open::Search, search);
        self.open.remove(at);
    }

    fn perform(&mut self, action: Action) -> Event {
        match action {
            Action::FindFirstVolume { capacity } => {
                self.calls.push("FindFirstVolume");
                assert_eq!(capacity, 260);
                if let Some(code) = self.faults.first_volume {
                    return Event::FirstVolume {
                        search: INVALID,
                        volume_name: filled(&[], capacity),
                        last_error: code,
                    };
                }
                self.cursor = 0;
                let search = self.hand_out(Open::Search);
                Event::FirstVolume {
                    search,
                    volume_name: filled(&wide(self.volumes[0].name), capacity),
                    last_error: 0,
                }
            }
            Action::FindNextVolume { search, capacity } => {
                self.calls.push("FindNextVolume");
                assert_eq!(self.look_up(search), Open::Search);
                if let Some(code) = self.faults.next_volume {
                    return Event::NextVolume {
                        ret: 0,
                        volume_name: filled(&[], capacity),
                        last_error: code,
                    };
                }
                self.cursor += 1;
                if self.cursor < self.volumes.len() {
                    Event::NextVolume {
                        ret: 1,
                        volume_name: filled(&wide(self.volumes[self.cursor].name), capacity),
                        last_error: 0,
                    }
                } else {
                    Event::NextVolume {
                        ret: 0,
                        volume_name: filled(&[], capacity),
                        last_error: NO_MORE_FILES,
                    }
                }
            }
            Action::FindVolumeClose { search } => {
                self.calls.push("FindVolumeClose");
                self.close(search, true);
                Event::Closed
            }
            Action::VolumePathNames { volume_name, capacity } => {
                self.calls.push("VolumePathNames");
                let current = &self.volumes[self.cursor];
                assert_eq!(volume_name, filled(&wide(current.name), capacity));
                if let Some(code) = self.faults.path_names {
                    return Event::PathNames {
                        ret: 0,
                        buffer: filled(&[], capacity),
                        length: 0,
                        last_error: code,
                    };
                }
                let mut list: Vec<u16> = Vec::new();
                for mount in &current.mounts {
                    list.extend(wide(mount.path));
                }
                list.push(0);
                let length = list.len() as u32;
                Event::PathNames { ret: 1, buffer: filled(&list, capacity), length, last_error: 0 }
            }
            Action::OpenVolume { path_name, access, share_mode, disposition, flags } => {
                self.calls.push("OpenVolume");
                assert_eq!(access, 0x0012_0089);
                assert_eq!(share_mode, 1);
                assert_eq!(disposition, 3);
                assert_eq!(flags, 0x0200_0000);
                assert_eq!(path_name.last(), Some(&0));
                let path = String::from_utf16(&path_name[..path_name.len() - 1]).unwrap();
                let nth = self.opened_paths.len();
                self.opened_paths.push(path.clone());
                if let Some((at, code)) = self.faults.open_volume {
                    if at == nth {
                        return Event::Opened { handle: INVALID, last_error: code };
                    }
                }
                let serial = self
                    .volumes
                    .iter()
                    .flat_map(|v| v.mounts.iter())
                    .find(|m| m.path == path)
                    .expect("the path is a mount path")
                    .serial;
                let handle = self.hand_out(Open::Volume(serial));
                Event::Opened { handle, last_error: 0 }
            }
            Action::FileIdInfo { handle, class } => {
                self.calls.push("FileIdInfo");
                assert_eq!(class, 18);
                let Open::Volume(serial) = self.look_up(handle) else {
                    panic!("not a volume");
                };
                if let Some(code) = self.faults.id_info {
                    return Event::IdInfo { ret: 0, volume_serial_number: 0, last_error: code };
                }
                Event::IdInfo { ret: 1, volume_serial_number: serial, last_error: 0 }
            }
            Action::OpenFileById { volume, id_type, file_id, access, share_mode, flags } => {
                self.calls.push("OpenFileById");
                assert_eq!(id_type, 2);
                assert_eq!(access, 0x0012_0089);
                assert_eq!(share_mode, 1);
                assert_eq!(flags, 0x0200_0000);
                let Open::Volume(serial) = self.look_up(volume) else {
                    panic!("not a volume");
                };
                match self.files.iter().position(|f| f.serial == serial && f.id == file_id) {
                    Some(at) => {
                        let handle = self.hand_out(Open::File(at));
                        Event::Opened { handle, last_error: 0 }
                    }
                    None => Event::Opened { handle: INVALID, last_error: self.stale },
                }
            }
            Action::FinalPathName { handle, capacity, flags } => {
                self.calls.push("FinalPathName");
                assert_eq!(flags, 0);
                let Open::File(at) = self.look_up(handle) else {
                    panic!("not a file");
                };
                if let Some(code) = self.faults.final_path {
                    return Event::FinalPath {
                        size: 0,
                        buffer: filled(&[], capacity),
                        last_error: code,
                    };
                }
                let path = &self.files[at].path;
                if path.len() + 1 > capacity as usize {
                    Event::FinalPath {
                        size: path.len() as u32 + 1,
                        buffer: filled(&[], capacity),
                        last_error: 0,
                    }
                } else {
                    Event::FinalPath {
                        size: path.len() as u32,
                        buffer: filled(path, capacity),
                        last_error: 0,
                    }
                }
            }
            Action::CloseHandle { handle } => {
                self.calls.push("CloseHandle");
                self.close(handle, false);
                Event::Closed
            }
            Action::Return(_) => unreachable!(),
        }
    }

    fn run(&mut self, resolver: Resolver) -> Result<String, Error> {
        let mut resolver = resolver;
        let mut steps = 0;
        loop {
            match resolver.action() {
                Action::Return(result) => return result,
                action => {
                    steps += 1;
                    assert!(steps < 1000, "the resolution does not end");
                    let event = self.perform(action);
                    resolver = resolver.advance(event);
                }
            }
        }
    }
}

fn units(text: &str) -> Vec<u16> {
    text.encode_utf16().collect()
}

fn two_volumes() -> Host {
    Host::new(
        vec![
            Volume {
                name: "\\\\?\\Volume{aaaa}\\",
                mounts: vec![Mount { path: "C:\\", serial: 0x1111 }],
            },
            Volume {
                name: "\\\\?\\Volume{bbbb}\\",
                mounts: vec![
                    Mount { path: "D:\\", serial: 0x2222 },
                    Mount { path: "C:\\mnt\\data\\", serial: 0x2222 },
                ],
            },
        ],
        vec![
            File { serial: 0x1111, id: 5, path: units("\\\\?\\C:\\tmp\\foo.txt") },
            File { serial: 0x2222, id: 5, path: units("\\\\?\\D:\\other.txt") },
            File { serial: 0x2222, id: 1u128 << 90, path: units("\\\\?\\D:\\dir\\\u{e9}.txt") },
        ],
    )
}

#[test]
fn file_on_the_first_volume_is_resolved() {
    let mut host = two_volumes();
    let found = host.run(path_from_id(&FileId::new_high_res(0x1111, 5)));
    assert_eq!(found, Ok(String::from("\\\\?\\C:\\tmp\\foo.txt")));
    assert!(host.open.is_empty());
    assert_eq!(
        host.calls,
        vec![
            "FindFirstVolume",
            "VolumePathNames",
            "OpenVolume",
            "FileIdInfo",
            "CloseHandle",
            "FindVolumeClose",
            "OpenVolume",
            "OpenFileById",
            "FinalPathName",
            "CloseHandle",
            "CloseHandle",
        ]
    );
    assert_eq!(host.opened_paths, vec!["C:\\", "C:\\"]);
}

#[test]
fn file_on_a_later_volume_is_resolved() {
    let mut host = two_volumes();
    let found = host.run(path_from_id(&FileId::new_high_res(0x2222, 1u128 << 90)));
    assert_eq!(found, Ok(String::from("\\\\?\\D:\\dir\\\u{e9}.txt")));
    assert!(host.open.is_empty());
    assert_eq!(host.opened_paths, vec!["C:\\", "D:\\", "D:\\"]);
}

#[test]
fn same_file_id_on_two_volumes_is_told_apart_by_the_serial_number() {
    let mut host = two_volumes();
    let found = host.run(path_from_id(&FileId::new_high_res(0x2222, 5)));
    assert_eq!(found, Ok(String::from("\\\\?\\D:\\other.txt")));
    assert!(host.open.is_empty());
}

#[test]
fn volume_mounted_at_two_paths_resolves_at_the_first() {
    let mut host = Host::new(
        vec![
            Volume { name: "\\\\?\\Volume{0}\\", mounts: vec![] },
            Volume {
                name: "\\\\?\\Volume{1}\\",
                mounts: vec![
                    Mount { path: "E:\\", serial: 9 },
                    Mount { path: "F:\\a\\", serial: 7 },
                    Mount { path: "F:\\b\\", serial: 7 },
                ],
            },
        ],
        vec![File { serial: 7, id: 3, path: units("\\\\?\\F:\\a\\x") }],
    );
    let found = host.run(path_from_id(&FileId::new_high_res(7, 3)));
    assert_eq!(found, Ok(String::from("\\\\?\\F:\\a\\x")));
    assert_eq!(host.opened_paths, vec!["E:\\", "F:\\a\\", "F:\\a\\"]);
    assert!(host.open.is_empty());
    let again = Host::run(&mut host, path_from_id(&FileId::new_high_res(7, 3)));
    assert_eq!(again, found);
    assert!(host.open.is_empty());
}

fn count(calls: &[&'static str], call: &str) -> usize {
    calls.iter().filter(|c| **c == call).count()
}

#[test]
fn no_volume_and_no_mount_path_is_visited_twice() {
    let volumes = |n: usize| -> Vec<Volume> {
        let names = ["v0", "v1", "v2", "v3", "v4"];
        let roots = ["A:\\", "B:\\", "C:\\", "D:\\", "E:\\"];
        let folders = ["A:\\m\\", "B:\\m\\", "C:\\m\\", "D:\\m\\", "E:\\m\\"];
        (0..n)
            .map(|i| Volume {
                name: names[i],
                mounts: vec![
                    Mount { path: roots[i], serial: i as u64 },
                    Mount { path: folders[i], serial: i as u64 },
                ],
            })
            .collect()
    };
    for k in 1..=5 {
        let mut host = Host::new(volumes(k), Vec::new());
        let failed = host.run(path_from_id(&FileId::new_high_res(99, 1))).unwrap_err();
        assert_eq!(failed, Error::FindVolume(Cause::NotFound));
        assert_eq!(count(&host.calls, "FindFirstVolume"), 1);
        assert_eq!(count(&host.calls, "FindNextVolume"), k);
        assert_eq!(count(&host.calls, "VolumePathNames"), k);
        assert_eq!(count(&host.calls, "FileIdInfo"), 2 * k);
        let mut seen = host.opened_paths.clone();
        seen.sort();
        seen.dedup();
        assert_eq!(seen.len(), host.opened_paths.len());
        assert!(host.open.is_empty());
    }
    for k in 1..=5 {
        let mut host = Host::new(volumes(k), Vec::new());
        let target = (k - 1) as u64;
        let failed = host.run(path_from_id(&FileId::new_high_res(target, 1))).unwrap_err();
        assert_eq!(failed, Error::OpenFile(Cause::Os(87)));
        assert_eq!(count(&host.calls, "FindNextVolume"), k - 1);
        assert_eq!(count(&host.calls, "VolumePathNames"), k);
        assert_eq!(count(&host.calls, "FileIdInfo"), 2 * (k - 1) + 1);
    }
}

#[test]
fn inode_is_rejected_without_any_call() {
    let mut host = two_volumes();
    let failed = host.run(path_from_id(&FileId::new_inode(1, 999999))).unwrap_err();
    assert_eq!(failed, Error::InvalidFileId);
    assert_eq!(failed.kind(), ErrorKind::UnsupportedIdentifier);
    assert!(host.calls.is_empty());
}

#[test]
fn low_res_is_unsupported_without_any_call() {
    let mut host = two_volumes();
    let failed = host.run(path_from_id(&FileId::new_low_res(0x1111, 5))).unwrap_err();
    assert_eq!(failed, Error::Unsupported);
    assert_eq!(failed.kind(), ErrorKind::UnsupportedIdentifier);
    assert!(host.calls.is_empty());
}

#[test]
fn stale_file_id_is_an_open_failure() {
    let mut host = two_volumes();
    let failed = host.run(path_from_id(&FileId::new_high_res(0x1111, 404))).unwrap_err();
    assert_eq!(failed, Error::OpenFile(Cause::Os(87)));
    assert_eq!(failed.kind(), ErrorKind::NotFound);
    assert!(host.open.is_empty());
    assert_eq!(host.calls.last(), Some(&"CloseHandle"));
}

#[test]
fn deleted_file_is_not_found() {
    let mut host = two_volumes();
    host.stale = 2;
    let failed = host.run(path_from_id(&FileId::new_high_res(0x2222, 404))).unwrap_err();
    assert_eq!(failed, Error::OpenFile(Cause::Os(2)));
    assert_eq!(failed.kind(), ErrorKind::NotFound);
    assert!(host.open.is_empty());
}

#[test]
fn unmounted_path_is_not_found() {
    let mut host = two_volumes();
    host.faults.open_volume = Some((1, 3));
    let failed = host.run(path_from_id(&FileId::new_high_res(0x2222, 5))).unwrap_err();
    assert_eq!(failed, Error::VolumeHandle(Cause::Os(3)));
    assert_eq!(failed.kind(), ErrorKind::NotFound);
    assert!(host.open.is_empty());
}

#[test]
fn unknown_volume_is_not_found() {
    let mut host = two_volumes();
    let failed = host.run(path_from_id(&FileId::new_high_res(0x3333, 5))).unwrap_err();
    assert_eq!(failed, Error::FindVolume(Cause::NotFound));
    assert_eq!(failed.kind(), ErrorKind::NotFound);
    assert!(host.open.is_empty());
    assert_eq!(host.opened_paths, vec!["C:\\", "D:\\", "C:\\mnt\\data\\"]);
    assert_eq!(host.calls.last(), Some(&"FindVolumeClose"));
}

#[test]
fn failed_enumeration_start_is_reported() {
    let mut host = two_volumes();
    host.faults.first_volume = Some(5);
    let failed = host.run(path_from_id(&FileId::new_high_res(0x1111, 5))).unwrap_err();
    assert_eq!(failed, Error::FindVolume(Cause::Os(5)));
    assert_eq!(failed.kind(), ErrorKind::TransientOsFailure);
    assert_eq!(host.calls, vec!["FindFirstVolume"]);
}

#[test]
fn failed_enumeration_step_is_reported_and_the_search_closed() {
    let mut host = two_volumes();
    host.faults.next_volume = Some(21);
    let failed = host.run(path_from_id(&FileId::new_high_res(0x2222, 5))).unwrap_err();
    assert_eq!(failed, Error::FindVolume(Cause::Os(21)));
    assert_eq!(failed.kind(), ErrorKind::TransientOsFailure);
    assert!(host.open.is_empty());
}

#[test]
fn failed_listing_is_reported_and_the_search_closed() {
    let mut host = two_volumes();
    host.faults.path_names = Some(234);
    let failed = host.run(path_from_id(&FileId::new_high_res(0x1111, 5))).unwrap_err();
    assert_eq!(failed, Error::VolumePathNames(Cause::Os(234)));
    assert!(host.open.is_empty());
    assert_eq!(host.calls, vec!["FindFirstVolume", "VolumePathNames", "FindVolumeClose"]);
}

#[test]
fn mount_path_that_does_not_open_is_reported_and_the_search_closed() {
    let mut host = two_volumes();
    host.faults.open_volume = Some((0, 5));
    let failed = host.run(path_from_id(&FileId::new_high_res(0x1111, 5))).unwrap_err();
    assert_eq!(failed, Error::VolumeHandle(Cause::Os(5)));
    assert!(host.open.is_empty());
}

#[test]
fn found_volume_that_does_not_open_again_is_reported() {
    let mut host = two_volumes();
    host.faults.open_volume = Some((1, 32));
    let failed = host.run(path_from_id(&FileId::new_high_res(0x1111, 5))).unwrap_err();
    assert_eq!(failed, Error::VolumeHandle(Cause::Os(32)));
    assert!(host.open.is_empty());
    assert_eq!(host.calls.last(), Some(&"OpenVolume"));
}

#[test]
fn unreadable_serial_number_is_reported_and_both_handles_closed() {
    let mut host = two_volumes();
    host.faults.id_info = Some(6);
    let failed = host.run(path_from_id(&FileId::new_high_res(0x1111, 5))).unwrap_err();
    assert_eq!(failed, Error::FileInformationByHandle(Cause::Os(6)));
    assert!(host.open.is_empty());
    assert_eq!(
        host.calls,
        vec![
            "FindFirstVolume",
            "VolumePathNames",
            "OpenVolume",
            "FileIdInfo",
            "CloseHandle",
            "FindVolumeClose",
        ]
    );
}

#[test]
fn failed_final_path_is_reported_and_both_handles_closed() {
    let mut host = two_volumes();
    host.faults.final_path = Some(1);
    let failed = host.run(path_from_id(&FileId::new_high_res(0x1111, 5))).unwrap_err();
    assert_eq!(failed, Error::FinalPathName(Cause::Os(1)));
    assert!(host.open.is_empty());
}

#[test]
fn path_longer_than_the_buffer_is_never_cut_short() {
    let long = format!("\\\\?\\C:\\{}", "x".repeat(300));
    let mut host = two_volumes();
    host.files.push(File { serial: 0x1111, id: 77, path: units(&long) });
    let failed = host.run(path_from_id(&FileId::new_high_res(0x1111, 77))).unwrap_err();
    assert_eq!(
        failed,
        Error::FinalPathName(Cause::OutOfMemory { required: 308, available: 260 })
    );
    assert_eq!(failed.kind(), ErrorKind::CapacityExceeded);
    assert!(host.open.is_empty());
}

#[test]
fn path_that_is_not_text_is_a_decode_failure() {
    let mut host = two_volumes();
    let mut path = units("\\\\?\\C:\\");
    path.push(0xDC00);
    host.files.push(File { serial: 0x1111, id: 78, path });
    let failed = host.run(path_from_id(&FileId::new_high_res(0x1111, 78))).unwrap_err();
    assert_eq!(failed, Error::FinalPathName(Cause::InvalidData));
    assert_eq!(failed.kind(), ErrorKind::DecodeFailure);
    assert!(host.open.is_empty());
}

#[test]
fn open_file_is_resolved_by_one_call_and_stays_open() {
    let mut host = two_volumes();
    let file = host.hand_out(Open::File(0));
    let found = host.run(path_from_file(file));
    assert_eq!(found, Ok(String::from("\\\\?\\C:\\tmp\\foo.txt")));
    assert_eq!(host.calls, vec!["FinalPathName"]);
    assert_eq!(host.open, vec![(file, Open::File(0))]);
}

#[test]
fn open_file_and_its_id_resolve_to_the_same_path() {
    let mut host = two_volumes();
    let by_id = host.run(path_from_id(&FileId::new_high_res(0x1111, 5)));
    let file = host.hand_out(Open::File(0));
    let by_file = host.run(path_from_file(file));
    assert_eq!(by_id, by_file);
}

#[test]
fn event_of_another_call_changes_nothing() {
    let resolver = path_from_id(&FileId::new_high_res(0x1111, 5));
    let resolver = resolver.advance(Event::Closed);
    let resolver = resolver.advance(Event::Opened { handle: 0x104, last_error: 0 });
    assert!(matches!(resolver.action(), Action::FindFirstVolume { capacity: 260 }));
    let resolver = resolver.advance(Event::FirstVolume {
        search: 0x104,
        volume_name: wide("\\\\?\\Volume{aaaa}\\"),
        last_error: 0,
    });
    let resolver = resolver.advance(Event::FirstVolume {
        search: 0x108,
        volume_name: wide("\\\\?\\Volume{bbbb}\\"),
        last_error: 0,
    });
    match resolver.action() {
        Action::VolumePathNames { volume_name, capacity } => {
            assert_eq!(volume_name, wide("\\\\?\\Volume{aaaa}\\"));
            assert_eq!(capacity, 260);
        }
        other => panic!("{other:?}"),
    }
}

#[test]
fn returned_result_stays() {
    let resolver = path_from_id(&FileId::new_inode(1, 2));
    let resolver = resolver.advance(Event::Closed);
    let resolver = resolver.advance(Event::FinalPath { size: 1, buffer: vec![65], last_error: 0 });
    assert!(matches!(resolver.action(), Action::Return(Err(Error::InvalidFileId))));
    let resolver = Resolver::query(0x44, 8);
    assert!(matches!(
        resolver.action(),
        Action::FinalPathName { handle: 0x44, capacity: 8, flags: 0 }
    ));
    let resolver = resolver.advance(Event::FinalPath { size: 1, buffer: vec![65], last_error: 0 });
    let resolver = resolver.advance(Event::FinalPath { size: 1, buffer: vec![66], last_error: 0 });
    match resolver.action() {
        Action::Return(result) => assert_eq!(result, Ok(String::from("A"))),
        other => panic!("{other:?}"),
    }
}

#[test]
fn start_takes_the_capacity_it_is_given() {
    let resolver = Resolver::start(&FileId::new_high_res(1, 2), 32768);
    assert!(matches!(resolver.action(), Action::FindFirstVolume { capacity: 32768 }));
}

#[test]
fn invalid_handle_is_all_bits_set() {
    let resolver = path_from_id(&FileId::new_high_res(1, 2));
    let resolver = resolver.advance(Event::FirstVolume {
        search: usize::MAX - 1,
        volume_name: wide("v"),
        last_error: 3,
    });
    assert!(matches!(resolver.action(), Action::VolumePathNames { .. }));
    let resolver = path_from_id(&FileId::new_high_res(1, 2));
    let resolver = resolver.advance(Event::FirstVolume {
        search: usize::MAX,
        volume_name: wide("v"),
        last_error: 3,
    });
    assert!(matches!(resolver.action(), Action::Return(Err(Error::FindVolume(Cause::Os(3))))));
}

#[test]
fn get_path_from_id() {
    const FILENAME: &str = "__tmp_id__";
    let path = format!("\\\\?\\C:\\work\\{FILENAME}");
    let mut host = two_volumes();
    host.files.push(File { serial: 0x1111, id: 0xF00D, path: units(&path) });
    let id = FileId::new_high_res(0x1111, 0xF00D);

    let found = host.run(path_from_id(&id)).unwrap();
    assert_eq!(found, path);
    assert!(host.open.is_empty());
}

#[test]
fn get_path_from_file() {
    const FILENAME: &str = "__tmp_handle__";
    let path = format!("\\\\?\\C:\\work\\{FILENAME}");
    let mut host = two_volumes();
    host.files.push(File { serial: 0x1111, id: 0xF00D, path: units(&path) });
    let f = host.hand_out(Open::File(3));
    let found = host.run(path_from_file(f)).unwrap();

    assert_eq!(found, path);
}

#[test]
fn get_volume_handle_from_path_works() {
    let volume: Vec<u16> = "C:\\".encode_utf16().chain(std::iter::once(0)).collect();
    let mut host = two_volumes();
    let resolver = path_from_id(&FileId::new_high_res(0x1111, 5));
    let resolver = resolver.advance(Event::FirstVolume {
        search: 0x104,
        volume_name: wide("\\\\?\\Volume{aaaa}\\"),
        last_error: 0,
    });
    let resolver = resolver.advance(Event::PathNames {
        ret: 1,
        buffer: filled(&wide("C:\\"), 260),
        length: 5,
        last_error: 0,
    });
    let action = resolver.action();
    match &action {
        Action::OpenVolume { path_name, .. } => assert_eq!(path_name, &volume),
        other => panic!("{other:?}"),
    }
    let event = host.perform(action);
    let Event::Opened { handle, last_error } = event else {
        panic!("{event:?}");
    };
    file_path_from_id::windows::get_volume_handle_from_path(handle, last_error).unwrap();
}
