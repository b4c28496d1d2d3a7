use droidnode::brokers::filesystem_broker::FilesystemBrokerImpl;
use droidnode::error::DroidError;
use droidnode::models::Digest;
use droidnode::services::foundation::image_unpack_service::{
    broken_off, ExtractAction, ExtractEvent, ImageUnpackServiceImpl, LayerEntry,
};
use std::collections::BTreeMap;

/// A file system in memory: directories hold `None`.
type Disk = BTreeMap<Vec<u8>, Option<Vec<u8>>>;

fn raw_file(path: &[u8]) -> LayerEntry {
    LayerEntry { path: path.to_vec(), is_hardlink: false, link_name: None }
}

fn file(path: &str) -> LayerEntry {
    raw_file(path.as_bytes())
}

fn raw_link(path: &[u8], to: Option<&[u8]>) -> LayerEntry {
    LayerEntry { path: path.to_vec(), is_hardlink: true, link_name: to.map(|t| t.to_vec()) }
}

fn link(path: &str, to: Option<&str>) -> LayerEntry {
    raw_link(path.as_bytes(), to.map(|t| t.as_bytes()))
}

fn tidy(path: &[u8]) -> Vec<u8> {
    path.strip_suffix(b"/").unwrap_or(path).to_vec()
}

fn note(what: &str, paths: &[&[u8]]) -> Vec<u8> {
    let mut line = what.as_bytes().to_vec();
    for path in paths {
        line.push(b' ');
        line.extend_from_slice(path);
    }
    line
}

fn raw_lines(lines: &[&[u8]]) -> Vec<Vec<u8>> {
    lines.iter().map(|line| line.to_vec()).collect()
}

fn lines(lines: &[&str]) -> Vec<Vec<u8>> {
    lines.iter().map(|line| line.as_bytes().to_vec()).collect()
}

/// Unpacks a layer. Hard links cannot be made, and entries named `bad` cannot be unpacked.
fn unpack(disk: &mut Disk, entries: Vec<LayerEntry>) -> Result<Vec<Vec<u8>>, String> {
    let service = ImageUnpackServiceImpl::new(FilesystemBrokerImpl::new("/l".to_string()));
    let (dir, mut extraction, mut action) =
        service.unpack_layer(&Digest::new("sha256:a"), b"/r".to_vec());
    assert_eq!(dir, "/l/sha256-a");
    let mut log: Vec<Vec<u8>> = Vec::new();
    let mut left = entries.into_iter();
    let mut current: Option<(Vec<u8>, bool)> = None;
    loop {
        let event = match action {
            ExtractAction::OpenArchive { path } => {
                assert_eq!(path, "/l/sha256-a/layer.tar.gz");
                ExtractEvent::Done
            }
            ExtractAction::NextEntry => match left.next() {
                Some(entry) => {
                    current = Some((entry.path.clone(), entry.is_hardlink));
                    ExtractEvent::Entry(entry)
                }
                None => ExtractEvent::EndOfArchive,
            },
            ExtractAction::LookUp { path } => ExtractEvent::Answer(disk.contains_key(&tidy(&path))),
            ExtractAction::LookForDirectory { path } => {
                ExtractEvent::Answer(matches!(disk.get(&tidy(&path)), Some(None)))
            }
            ExtractAction::RemoveDirectory { path } => {
                let path = tidy(&path);
                log.push(note("rmdir", &[&path]));
                let mut below = path.clone();
                below.push(b'/');
                disk.retain(|p, _| *p != path && !p.starts_with(&below));
                ExtractEvent::Done
            }
            ExtractAction::MakeDirectory { path } => {
                disk.entry(tidy(&path)).or_insert(None);
                ExtractEvent::Done
            }
            ExtractAction::RemoveFile { path } => {
                log.push(note("rm", &[&path]));
                disk.remove(&path);
                ExtractEvent::Done
            }
            ExtractAction::UnpackEntry => {
                let (path, is_hardlink) = current.clone().unwrap();
                if is_hardlink || path.starts_with(b"bad") {
                    ExtractEvent::Refused("no".to_string())
                } else {
                    log.push(note("unpack", &[&path]));
                    let mut place = b"/r/".to_vec();
                    place.extend_from_slice(&path);
                    disk.insert(place, Some(path));
                    ExtractEvent::Done
                }
            }
            ExtractAction::CopyFile { from, to } => {
                log.push(note("copy", &[&from, &to]));
                if to.ends_with(b"full") {
                    ExtractEvent::Refused("disk full".to_string())
                } else {
                    let contents = disk[&from].clone();
                    disk.insert(to, contents);
                    ExtractEvent::Done
                }
            }
            ExtractAction::Finished => return Ok(log),
            ExtractAction::Failed(DroidError::Filesystem(m)) => return Err(m),
            ExtractAction::Failed(other) => panic!("{other:?}"),
        };
        assert!(extraction.is_awaiting(&event));
        action = extraction.step(event);
    }
}

fn raw_disk(paths: &[(&[u8], bool)]) -> Disk {
    paths
        .iter()
        .map(|(p, is_dir)| (p.to_vec(), if *is_dir { None } else { Some(b"x".to_vec()) }))
        .collect()
}

fn disk(paths: &[(&str, bool)]) -> Disk {
    let raw: Vec<(&[u8], bool)> = paths.iter().map(|(p, d)| (p.as_bytes(), *d)).collect();
    raw_disk(&raw)
}

#[test]
fn entries_are_unpacked_in_order() {
    let mut d = Disk::new();
    let log = unpack(&mut d, vec![file("bin"), file("etc")]).unwrap();
    assert_eq!(log, lines(&["unpack bin", "unpack etc"]));
    assert!(d.contains_key(&b"/r/bin"[..]) && d.contains_key(&b"/r/etc"[..]));
}

#[test]
fn whiteouts_remove_files() {
    let mut d = disk(&[("/r/etc", true), ("/r/etc/old", false)]);
    let log = unpack(&mut d, vec![file("etc/.wh.old"), file("etc/.wh.never")]).unwrap();
    assert_eq!(log, lines(&["rm /r/etc/old"]));
    assert!(!d.contains_key(&b"/r/etc/old"[..]));
}

#[test]
fn whiteouts_remove_directories() {
    let mut d = disk(&[("/r/var", true), ("/r/var/lib", true), ("/r/var/lib/x", false)]);
    let log = unpack(&mut d, vec![file("var/.wh.lib")]).unwrap();
    assert_eq!(log, lines(&["rmdir /r/var/lib"]));
    assert_eq!(d.len(), 1);
}

#[test]
fn opaque_whiteouts_empty_directories() {
    let mut d = disk(&[("/r/var", true), ("/r/var/x", false), ("/r/y", false)]);
    let log = unpack(&mut d, vec![file("var/.wh..wh..opq"), file("none/.wh..wh..opq")]).unwrap();
    assert_eq!(log, lines(&["rmdir /r/var"]));
    assert_eq!(d, disk(&[("/r/var", true), ("/r/y", false)]));
}

#[test]
fn hard_links_become_copies() {
    let mut d = Disk::new();
    let log = unpack(&mut d, vec![file("a"), link("d/b", Some("a"))]).unwrap();
    assert_eq!(log, lines(&["unpack a", "copy /r/a /r/d/b"]));
    assert_eq!(d[&b"/r/d/b"[..]], Some(b"a".to_vec()));
    assert_eq!(d[&b"/r/d"[..]], None);
}

#[test]
fn hard_links_may_come_before_their_files() {
    let mut d = Disk::new();
    let log = unpack(
        &mut d,
        vec![link("b", Some("a")), link("c", Some("a")), file("z"), file("a")],
    )
    .unwrap();
    assert_eq!(log, lines(&["unpack z", "unpack a", "copy /r/a /r/b", "copy /r/a /r/c"]));
}

#[test]
fn hard_links_to_nothing_are_errors() {
    let m = unpack(&mut Disk::new(), vec![link("b", Some("a"))]).unwrap_err();
    assert_eq!(m, "failed to unpack `/r/b` (hardlink target `/r/a` not found)");
    let m = unpack(&mut Disk::new(), vec![link("b", None)]).unwrap_err();
    assert_eq!(m, "failed to unpack `/r/b`");
}

#[test]
fn entries_that_cannot_be_unpacked_are_errors() {
    let m = unpack(&mut Disk::new(), vec![file("bad")]).unwrap_err();
    assert_eq!(m, "failed to unpack `/r/bad`");
}

#[test]
fn copies_may_fail() {
    let m = unpack(&mut Disk::new(), vec![file("a"), link("full", Some("a"))]).unwrap_err();
    assert_eq!(m, "failed to copy hardlink `/r/a` -> `/r/full`: disk full");
}

#[test]
fn names_of_directories_need_not_be_text() {
    let mut d = raw_disk(&[(b"/r/\xff", true), (b"/r/\xff/old", false), (b"/r/\xfe", true)]);
    let entries = vec![raw_file(b"\xff/.wh.old"), raw_file(b"\xfe/.wh..wh..opq")];
    let log = unpack(&mut d, entries).unwrap();
    assert_eq!(log, raw_lines(&[b"rm /r/\xff/old", b"rmdir /r/\xfe"]));
    assert_eq!(d, raw_disk(&[(b"/r/\xff", true), (b"/r/\xfe", true)]));
}

#[test]
fn hard_links_keep_names_that_are_no_text() {
    let mut d = Disk::new();
    let entries = vec![raw_file(b"a\xff"), raw_link(b"\x80/b\xfe", Some(b"a\xff"))];
    let log = unpack(&mut d, entries).unwrap();
    assert_eq!(log, raw_lines(&[b"unpack a\xff", b"copy /r/a\xff /r/\x80/b\xfe"]));
    let entries = vec![raw_link(b"c\xff", Some(b"a\xfe")), raw_file(b"a\xfe")];
    let log = unpack(&mut Disk::new(), entries).unwrap();
    assert_eq!(log, raw_lines(&[b"unpack a\xfe", b"copy /r/a\xfe /r/c\xff"]));
}

#[test]
fn whiteouts_name_what_they_remove_in_text() {
    let replaced = "/r/o\u{fffd}d";
    let mut d = raw_disk(&[(b"/r/o\xffd", false), (replaced.as_bytes(), false)]);
    let log = unpack(&mut d, vec![raw_file(b".wh.o\xffd")]).unwrap();
    assert_eq!(log, vec![note("rm", &[replaced.as_bytes()])]);
    let mut d = disk(&[("/r/größe", false)]);
    let log = unpack(&mut d, vec![file(".wh.größe")]).unwrap();
    assert_eq!(log, lines(&["rm /r/größe"]));
}

#[test]
fn errors_show_names_that_are_no_text() {
    let m = unpack(&mut Disk::new(), vec![raw_file(b"bad\xff")]).unwrap_err();
    assert_eq!(m, "failed to unpack `/r/bad\u{fffd}`");
    let m = unpack(&mut Disk::new(), vec![raw_link(b"b\xff", Some(b"\xc3\xa4"))]).unwrap_err();
    assert_eq!(m, "failed to unpack `/r/b\u{fffd}` (hardlink target `/r/ä` not found)");
}

#[test]
fn archives_may_not_open() {
    let service = ImageUnpackServiceImpl::new(FilesystemBrokerImpl::new("/l".to_string()));
    let (_, mut extraction, _) = service.unpack_layer(&Digest::new("sha256:a"), b"/r".to_vec());
    match extraction.step(ExtractEvent::Refused("no such file".to_string())) {
        ExtractAction::Failed(DroidError::Filesystem(m)) => assert_eq!(m, "no such file"),
        other => panic!("{other:?}"),
    }
    assert!(!extraction.is_awaiting(&ExtractEvent::Done));
}

#[test]
fn extractions_may_break_off() {
    match broken_off("panic") {
        DroidError::Process(m) => assert_eq!(m, "spawn_blocking: panic"),
        other => panic!("{other:?}"),
    }
}
