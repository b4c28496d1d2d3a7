use droidnode::bytes::{bytes_of, same_bytes, strip_bytes};
use droidnode::paths::{
    file_name, is_absolute, parent, path_join, raw_file_name, raw_join, raw_parent, strip_root,
    with_file_name,
};
use std::path::Path;

fn texts() -> Vec<String> {
    let pieces = ["a", ".", "..", "/", "b.c", "", "//", "./", "/."];
    let mut out: Vec<String> = Vec::new();
    for a in pieces {
        for b in pieces {
            for c in pieces {
                for d in pieces {
                    out.push(format!("{a}{b}{c}{d}"));
                }
            }
        }
    }
    out
}

fn text(p: &Path) -> String {
    p.to_str().unwrap().to_string()
}

#[test]
fn file_names_are_those_of_std() {
    for t in texts() {
        let expected = Path::new(&t).file_name().map(|n| n.to_str().unwrap().to_string());
        assert_eq!(file_name(&t), expected, "{t:?}");
    }
}

#[test]
fn parents_are_those_of_std() {
    for t in texts() {
        assert_eq!(parent(&t), Path::new(&t).parent().map(text), "{t:?}");
    }
}

#[test]
fn paths_are_joined_as_std_does() {
    for base in ["", "/", "a", "a/", "/a/b", "."] {
        for t in texts() {
            assert_eq!(path_join(base, &t), text(&Path::new(base).join(&t)), "{base:?} {t:?}");
        }
    }
}

#[test]
fn file_names_are_changed_as_std_does() {
    for t in texts() {
        assert_eq!(
            with_file_name(&t, "libproot_loader.so"),
            text(&Path::new(&t).with_file_name("libproot_loader.so")),
            "{t:?}"
        );
    }
}

#[test]
fn absolute_paths_are_those_of_std() {
    for t in texts() {
        assert_eq!(is_absolute(&t), Path::new(&t).is_absolute(), "{t:?}");
    }
}

#[test]
fn absolute_paths_are_taken_from_the_root_as_std_does() {
    for t in texts() {
        if let Ok(rest) = Path::new(&t).strip_prefix("/") {
            assert_eq!(strip_root(&t), text(rest), "{t:?}");
        }
    }
}

#[test]
fn paths_of_bytes_follow_those_of_text() {
    let bytes = |t: String| t.into_bytes();
    for t in texts() {
        let raw = bytes_of(&t);
        assert_eq!(raw_file_name(&raw), file_name(&t).map(bytes), "{t:?}");
        assert_eq!(raw_parent(&raw), parent(&t).map(bytes), "{t:?}");
        for base in ["", "/", "a", "a/"] {
            assert_eq!(raw_join(&bytes_of(base), &raw), bytes(path_join(base, &t)), "{t:?}");
        }
    }
}

#[test]
fn paths_of_bytes_need_not_be_text() {
    let path = b"/a\xff/./b\xfe/".to_vec();
    assert_eq!(raw_file_name(&path), Some(b"b\xfe".to_vec()));
    assert_eq!(raw_parent(&path), Some(b"/a\xff".to_vec()));
    assert_eq!(raw_join(&path, &b"\x80".to_vec()), b"/a\xff/./b\xfe/\x80".to_vec());
}

#[test]
fn bytes_are_compared_and_stripped() {
    let raw = |t: &[u8]| t.to_vec();
    assert!(same_bytes(&raw(b"a\xff"), &raw(b"a\xff")));
    assert!(!same_bytes(&raw(b"a\xff"), &raw(b"a")));
    assert!(!same_bytes(&raw(b"ab"), &raw(b"aa")));
    assert_eq!(strip_bytes(&raw(b".wh.\xff"), &raw(b".wh.")), Some(raw(b"\xff")));
    assert_eq!(strip_bytes(&raw(b".wh"), &raw(b".wh.")), None);
    assert_eq!(strip_bytes(&raw(b".wx.a"), &raw(b".wh.")), None);
    assert_eq!(bytes_of("ä"), raw(b"\xc3\xa4"));
}
