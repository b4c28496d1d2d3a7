//! Unix paths, as text and as bytes.
//!
//! A path is a front (`/`, a leading `.`, or nothing) followed by components
//! that slashes separate. Empty components and `.` components after the front
//! mean nothing and are passed over.
use vstd::prelude::*;

use crate::bytes::{bytes_between, push_bytes};
use crate::text::{cat2, cat3, chars_of, text_of};

verus! {

/// What a path is made of.
pub trait PathUnit: Copy {
    /// What separates components.
    spec fn slash() -> Self;

    spec fn dot() -> Self;

    fn is_slash(&self) -> (r: bool)
        ensures
            r == (*self == Self::slash()),
    ;

    fn is_dot(&self) -> (r: bool)
        ensures
            r == (*self == Self::dot()),
    ;
}

impl PathUnit for char {
    open spec fn slash() -> Self {
        '/'
    }

    open spec fn dot() -> Self {
        '.'
    }

    fn is_slash(&self) -> (r: bool) {
        *self == '/'
    }

    fn is_dot(&self) -> (r: bool) {
        *self == '.'
    }
}

impl PathUnit for u8 {
    open spec fn slash() -> Self {
        0x2f
    }

    open spec fn dot() -> Self {
        0x2e
    }

    fn is_slash(&self) -> (r: bool) {
        *self == 0x2f
    }

    fn is_dot(&self) -> (r: bool) {
        *self == 0x2e
    }
}

/// The length of the front of a path.
pub open spec fn front_len<T: PathUnit>(p: Seq<T>) -> nat {
    if p.len() > 0 && p[0] == T::slash() {
        1
    } else if p.len() > 0 && p[0] == T::dot() && (p.len() == 1 || p[1] == T::slash()) {
        1
    } else {
        0
    }
}

/// Where the last component of `p` starts, behind the first `front` units.
pub open spec fn component_start<T: PathUnit>(p: Seq<T>, front: nat) -> nat
    decreases p.len(),
{
    if p.len() <= front {
        front
    } else if p.last() == T::slash() {
        p.len()
    } else {
        component_start(p.drop_last(), front)
    }
}

/// The last component of `p`, behind the first `front` units.
pub open spec fn last_component<T: PathUnit>(p: Seq<T>, front: nat) -> Seq<T> {
    p.skip(component_start(p, front) as int)
}

/// `p` without its last component and the slash before it.
pub open spec fn without_last<T: PathUnit>(p: Seq<T>, front: nat) -> Seq<T> {
    let start = component_start(p, front);
    if start > front {
        p.take(start - 1)
    } else {
        p.take(front as int)
    }
}

/// A component that means nothing.
pub open spec fn is_void_component<T: PathUnit>(c: Seq<T>) -> bool {
    c.len() == 0 || c == seq![T::dot()]
}

/// `p` without the components at its end that mean nothing.
pub open spec fn settled<T: PathUnit>(p: Seq<T>, front: nat) -> Seq<T>
    decreases p.len(),
{
    if p.len() > front && is_void_component(last_component(p, front)) {
        proof {
            lemma_component_start(p, front);
        }
        settled(without_last(p, front), front)
    } else {
        p
    }
}

/// The last component starts behind the front, and within the path.
pub proof fn lemma_component_start<T: PathUnit>(p: Seq<T>, front: nat)
    ensures
        p.len() >= front ==> front <= component_start(p, front) <= p.len(),
    decreases p.len(),
{
    if p.len() > front && p.last() != T::slash() {
        lemma_component_start(p.drop_last(), front);
    }
}

/// The last component of a path, unless that is `..` or the path has none.
pub open spec fn file_name_of<T: PathUnit>(p: Seq<T>) -> Option<Seq<T>> {
    let front = front_len(p);
    let s = settled(p, front);
    if s.len() > front && last_component(s, front) != seq![T::dot(), T::dot()] {
        Some(last_component(s, front))
    } else {
        None
    }
}

/// The path without its last component, unless it is empty or the root.
pub open spec fn parent_of<T: PathUnit>(p: Seq<T>) -> Option<Seq<T>> {
    let front = front_len(p);
    let s = settled(p, front);
    if s.len() > front {
        Some(settled(without_last(s, front), front))
    } else if front == 1 && p[0] == T::dot() {
        Some(Seq::empty())
    } else {
        None
    }
}

/// The path `rel`, taken from the directory `base`.
pub open spec fn path_joined<T: PathUnit>(base: Seq<T>, rel: Seq<T>) -> Seq<T> {
    if rel.len() > 0 && rel[0] == T::slash() {
        rel
    } else if base.len() > 0 && base.last() != T::slash() {
        base.push(T::slash()) + rel
    } else {
        base + rel
    }
}

/// The path with `name` in the place of its file name.
pub open spec fn path_renamed<T: PathUnit>(p: Seq<T>, name: Seq<T>) -> Seq<T> {
    if file_name_of(p) is Some && parent_of(p) is Some {
        path_joined(parent_of(p)->0, name)
    } else {
        path_joined(p, name)
    }
}

/// `p` without the components at its start that mean nothing.
pub open spec fn advanced<T: PathUnit>(p: Seq<T>) -> Seq<T>
    decreases p.len(),
{
    if p.len() > 0 && p[0] == T::slash() {
        advanced(p.skip(1))
    } else if p.len() > 1 && p[0] == T::dot() && p[1] == T::slash() {
        advanced(p.skip(2))
    } else {
        p
    }
}

/// An absolute path, taken from the root.
pub open spec fn below_root<T: PathUnit>(p: Seq<T>) -> Seq<T> {
    advanced(settled(p, 1).skip(1))
}

// ---------------------------------------------------------------------------

fn front_length<T: PathUnit>(cs: &Vec<T>) -> (r: usize)
    ensures
        r == front_len(cs@),
        r <= cs@.len(),
{
    if cs.len() > 0 && cs[0].is_slash() {
        1
    } else if cs.len() > 0 && cs[0].is_dot() && (cs.len() == 1 || cs[1].is_slash()) {
        1
    } else {
        0
    }
}

fn find_component<T: PathUnit>(cs: &Vec<T>, end: usize, front: usize) -> (r: usize)
    requires
        front <= end <= cs@.len(),
    ensures
        r == component_start(cs@.take(end as int), front as nat),
        front <= r <= end,
{
    let mut i: usize = end;
    while i > front && !cs[i - 1].is_slash()
        invariant
            front <= i <= end <= cs@.len(),
            component_start(cs@.take(end as int), front as nat) == component_start(
                cs@.take(i as int),
                front as nat,
            ),
        decreases i,
    {
        assert(cs@.take(i as int).drop_last() =~= cs@.take(i - 1));
        i = i - 1;
    }
    i
}

/// The end of `cs@.take(end)` when it is settled.
fn settle<T: PathUnit>(cs: &Vec<T>, end: usize, front: usize) -> (r: usize)
    requires
        front <= end <= cs@.len(),
    ensures
        front <= r <= end,
        cs@.take(r as int) == settled(cs@.take(end as int), front as nat),
{
    let mut e: usize = end;
    while e > front
        invariant
            front <= e <= end <= cs@.len(),
            settled(cs@.take(end as int), front as nat) == settled(
                cs@.take(e as int),
                front as nat,
            ),
        decreases e,
    {
        let start: usize = find_component(cs, e, front);
        let ghost p = cs@.take(e as int);
        let ghost c = last_component(p, front as nat);
        assert(c =~= cs@.subrange(start as int, e as int));
        let void = start == e || (start + 1 == e && cs[start].is_dot());
        proof {
            if start + 1 == e && cs@[start as int] == T::dot() {
                assert(c =~= seq![T::dot()]);
            }
            if c == seq![T::dot()] {
                assert(c.len() == 1 && c[0] == T::dot());
            }
            assert(void == is_void_component(c));
        }
        if !void {
            return e;
        }
        if start > front {
            assert(p.take(start - 1) =~= cs@.take(start - 1));
            e = start - 1;
        } else {
            assert(p.take(front as int) =~= cs@.take(front as int));
            e = front;
        }
    }
    e
}

/// Where the file name of a path starts and ends.
fn name_range<T: PathUnit>(cs: &Vec<T>) -> (r: Option<(usize, usize)>)
    ensures
        match r {
            Some((start, end)) => {
                &&& start <= end <= cs@.len()
                &&& file_name_of(cs@) == Some(cs@.subrange(start as int, end as int))
            },
            None => file_name_of(cs@) is None,
        },
{
    let front: usize = front_length(cs);
    assert(cs@.take(cs@.len() as int) =~= cs@);
    let end: usize = settle(cs, cs.len(), front);
    if end > front {
        let start: usize = find_component(cs, end, front);
        let ghost c = last_component(cs@.take(end as int), front as nat);
        assert(c =~= cs@.subrange(start as int, end as int));
        if end - start == 2 && cs[start].is_dot() && cs[start + 1].is_dot() {
            assert(c =~= seq![T::dot(), T::dot()]);
            None
        } else {
            proof {
                if c == seq![T::dot(), T::dot()] {
                    assert(c.len() == 2 && c[0] == T::dot() && c[1] == T::dot());
                }
            }
            Some((start, end))
        }
    } else {
        None
    }
}

/// Where the directory that a path stands in ends.
fn parent_end<T: PathUnit>(cs: &Vec<T>) -> (r: Option<usize>)
    ensures
        match r {
            Some(end) => {
                &&& end <= cs@.len()
                &&& parent_of(cs@) == Some(cs@.subrange(0, end as int))
            },
            None => parent_of(cs@) is None,
        },
{
    let front: usize = front_length(cs);
    assert(cs@.take(cs@.len() as int) =~= cs@);
    let end: usize = settle(cs, cs.len(), front);
    if end > front {
        let start: usize = find_component(cs, end, front);
        let upto: usize = if start > front { start - 1 } else { front };
        assert(cs@.take(end as int).take(upto as int) =~= cs@.take(upto as int));
        let parent_end: usize = settle(cs, upto, front);
        assert(cs@.subrange(0, parent_end as int) =~= cs@.take(parent_end as int));
        Some(parent_end)
    } else if front == 1 && cs[0].is_dot() {
        assert(cs@.subrange(0, 0) =~= Seq::<T>::empty());
        Some(0)
    } else {
        None
    }
}

/// The file name of a path.
pub fn file_name(path: &str) -> (r: Option<String>)
    ensures
        match r {
            Some(n) => file_name_of(path@) == Some(n@),
            None => file_name_of(path@) is None,
        },
{
    let cs = chars_of(path);
    match name_range(&cs) {
        Some((start, end)) => Some(text_of(&cs, start, end)),
        None => None,
    }
}

/// The directory that a path stands in.
pub fn parent(path: &str) -> (r: Option<String>)
    ensures
        match r {
            Some(n) => parent_of(path@) == Some(n@),
            None => parent_of(path@) is None,
        },
{
    let cs = chars_of(path);
    match parent_end(&cs) {
        Some(end) => Some(text_of(&cs, 0, end)),
        None => None,
    }
}

/// The file name of a path of bytes.
pub fn raw_file_name(path: &Vec<u8>) -> (r: Option<Vec<u8>>)
    ensures
        match r {
            Some(n) => file_name_of(path@) == Some(n@),
            None => file_name_of(path@) is None,
        },
{
    match name_range(path) {
        Some((start, end)) => Some(bytes_between(path, start, end)),
        None => None,
    }
}

/// The directory that a path of bytes stands in.
pub fn raw_parent(path: &Vec<u8>) -> (r: Option<Vec<u8>>)
    ensures
        match r {
            Some(n) => parent_of(path@) == Some(n@),
            None => parent_of(path@) is None,
        },
{
    match parent_end(path) {
        Some(end) => Some(bytes_between(path, 0, end)),
        None => None,
    }
}

/// The path `rel`, taken from the directory `base`, both of bytes.
pub fn raw_join(base: &Vec<u8>, rel: &Vec<u8>) -> (r: Vec<u8>)
    ensures
        r@ == path_joined(base@, rel@),
{
    let mut r: Vec<u8> = Vec::new();
    if !(rel.len() > 0 && rel[0].is_slash()) {
        push_bytes(&mut r, base);
        if base.len() > 0 && !base[base.len() - 1].is_slash() {
            r.push(0x2f);
        }
    }
    push_bytes(&mut r, rel);
    assert(r@ =~= path_joined(base@, rel@));
    r
}

/// The path `rel`, taken from the directory `base`.
pub fn path_join(base: &str, rel: &str) -> (r: String)
    ensures
        r@ == path_joined(base@, rel@),
{
    let b = chars_of(base);
    let c = chars_of(rel);
    if c.len() > 0 && c[0] == '/' {
        rel.to_owned()
    } else if b.len() > 0 && b[b.len() - 1] != '/' {
        let r = cat3(base, "/", rel);
        proof {
            reveal_strlit("/");
            assert(base@ + "/"@ =~= base@.push('/'));
        }
        r
    } else {
        cat2(base, rel)
    }
}

/// The path with `name` in the place of its file name.
pub fn with_file_name(path: &str, name: &str) -> (r: String)
    ensures
        r@ == path_renamed(path@, name@),
{
    match (file_name(path), parent(path)) {
        (Some(_), Some(dir)) => path_join(dir.as_str(), name),
        _ => path_join(path, name),
    }
}

/// Whether a path starts at the root.
pub fn is_absolute(path: &str) -> (r: bool)
    ensures
        r == (path@.len() > 0 && path@[0] == '/'),
{
    let cs = chars_of(path);
    cs.len() > 0 && cs[0] == '/'
}

/// An absolute path, taken from the root.
pub fn strip_root(path: &str) -> (r: String)
    requires
        path@.len() > 0 && path@[0] == '/',
    ensures
        r@ == below_root(path@),
{
    let cs = chars_of(path);
    assert(cs@.take(cs@.len() as int) =~= cs@);
    let end: usize = settle(&cs, cs.len(), 1);
    let mut i: usize = 1;
    assert(cs@.take(end as int).skip(1) =~= cs@.subrange(1, end as int));
    while i < end && (cs[i] == '/' || (i + 1 < end && cs[i] == '.' && cs[i + 1] == '/'))
        invariant
            1 <= i <= end <= cs@.len(),
            below_root(path@) == advanced(cs@.subrange(i as int, end as int)),
        decreases end - i,
    {
        let ghost p = cs@.subrange(i as int, end as int);
        if cs[i] == '/' {
            assert(p.skip(1) =~= cs@.subrange(i + 1, end as int));
            i = i + 1;
        } else {
            assert(p.skip(2) =~= cs@.subrange(i + 2, end as int));
            i = i + 2;
        }
    }
    text_of(&cs, i, end)
}

// ---------------------------------------------------------------------------

/// A path is taken from a directory by writing it behind the directory, with a slash between the
/// two unless there is one. An absolute path is taken from nowhere.
pub proof fn law_paths_are_joined_by_slashes<T: PathUnit>(base: Seq<T>, rel: Seq<T>)
    ensures
        rel.len() > 0 && rel[0] == T::slash() ==> path_joined(base, rel) == rel,
        !(rel.len() > 0 && rel[0] == T::slash()) && base.len() > 0 && base.last() != T::slash()
            ==> path_joined(base, rel) == base + seq![T::slash()] + rel,
        !(rel.len() > 0 && rel[0] == T::slash()) && (base.len() == 0 || base.last() == T::slash())
            ==> path_joined(base, rel) == base + rel,
{
    assert(base + seq![T::slash()] + rel =~= base.push(T::slash()) + rel);
}

/// Slashes and dots are those of Unix paths, as characters and as bytes.
pub proof fn law_slashes_and_dots_are_those_of_unix()
    ensures
        <char as PathUnit>::slash() == '/',
        <char as PathUnit>::dot() == '.',
        <u8 as PathUnit>::slash() == 47,
        <u8 as PathUnit>::dot() == 46,
{
}

/// A name that a component can have: not empty, without a slash, and neither `.` nor `..`.
pub open spec fn is_plain_name<T: PathUnit>(name: Seq<T>) -> bool {
    &&& name.len() > 0
    &&& !name.contains(T::slash())
    &&& name != seq![T::dot()]
    &&& name != seq![T::dot(), T::dot()]
}

proof fn lemma_component_behind<T: PathUnit>(dir: Seq<T>, name: Seq<T>, front: nat)
    requires
        !name.contains(T::slash()),
        front <= dir.len(),
    ensures
        component_start(dir.push(T::slash()) + name, front) == dir.len() + 1,
    decreases name.len(),
{
    let p = dir.push(T::slash()) + name;
    if name.len() == 0 {
        assert(p.last() == T::slash());
    } else {
        assert(p.last() == name[name.len() - 1]);
        assert(name.contains(name[name.len() - 1]));
        assert(p.drop_last() =~= dir.push(T::slash()) + name.drop_last());
        assert(!name.drop_last().contains(T::slash())) by {
            if name.drop_last().contains(T::slash()) {
                let i = choose|i: int|
                    0 <= i < name.drop_last().len() && name.drop_last()[i] == T::slash();
                assert(name[i] == T::slash());
            }
        }
        lemma_component_behind(dir, name.drop_last(), front);
    }
}

proof fn lemma_component_alone<T: PathUnit>(name: Seq<T>)
    requires
        !name.contains(T::slash()),
    ensures
        component_start(name, 0) == 0,
    decreases name.len(),
{
    if name.len() > 0 {
        assert(name.contains(name[name.len() - 1]));
        assert(!name.drop_last().contains(T::slash())) by {
            if name.drop_last().contains(T::slash()) {
                let i = choose|i: int|
                    0 <= i < name.drop_last().len() && name.drop_last()[i] == T::slash();
                assert(name[i] == T::slash());
            }
        }
        lemma_component_alone(name.drop_last());
    }
}

/// The file name of a path is what stands behind its last slash, and its directory is what stands
/// before it, where that ends with a plain name too.
pub proof fn law_files_stand_in_their_directories<T: PathUnit>(
    above: Seq<T>,
    dir: Seq<T>,
    name: Seq<T>,
)
    requires
        T::slash() != T::dot(),
        is_plain_name(name),
        is_plain_name(dir),
    ensures
        file_name_of(name) == Some(name),
        parent_of(name) == Some(Seq::<T>::empty()),
        file_name_of(dir.push(T::slash()) + name) == Some(name),
        parent_of(dir.push(T::slash()) + name) == Some(dir),
        file_name_of((above.push(T::slash()) + dir).push(T::slash()) + name) == Some(name),
        parent_of((above.push(T::slash()) + dir).push(T::slash()) + name) == Some(
            above.push(T::slash()) + dir,
        ),
{
    lemma_plain_front(name);
    lemma_plain_front(dir);
    lemma_component_alone(name);
    lemma_component_alone(dir);
    assert(name.skip(0) =~= name);
    assert(name.take(0) =~= Seq::<T>::empty());
    assert(last_component(name, 0) == name);
    assert(settled(name, 0) == name);
    assert(settled(Seq::<T>::empty(), 0) =~= Seq::<T>::empty());
    // A directory in the current one.
    let p = dir.push(T::slash()) + name;
    assert(p[0] == dir[0]);
    if dir.len() == 1 {
        assert(dir =~= seq![dir[0]]);
        assert(dir[0] != T::dot());
    } else {
        assert(p[1] == dir[1]);
    }
    lemma_plain_first(dir);
    assert(front_len(p) == 0) by {
        assert(dir.contains(dir[0]));
        if dir.len() > 1 {
            assert(dir.contains(dir[1]));
        }
    }
    lemma_component_behind(dir, name, 0);
    assert(p.skip(dir.len() as int + 1) =~= name);
    assert(p.take(dir.len() as int) =~= dir);
    assert(settled(p, 0) == p);
    assert(last_component(dir, 0) =~= dir);
    assert(settled(dir, 0) == dir);
    // A directory below another.
    let below = above.push(T::slash()) + dir;
    let q = below.push(T::slash()) + name;
    let front = front_len(q);
    assert(front <= above.len() + 1);
    assert(q[0] == if above.len() == 0 { T::slash() } else { above[0] });
    assert(front <= below.len());
    lemma_component_behind(below, name, front);
    assert(q.skip(below.len() as int + 1) =~= name);
    assert(q.take(below.len() as int) =~= below);
    assert(settled(q, front) == q);
    if front <= above.len() {
        lemma_component_behind(above, dir, front);
        assert(below.skip(above.len() as int + 1) =~= dir);
        assert(settled(below, front) == below);
    } else {
        assert(above.len() == 0 && front == 1);
        assert(below =~= seq![T::slash()] + dir);
        lemma_component_at_root(dir);
        assert(below.skip(1) =~= dir);
        assert(settled(below, 1) == below);
    }
}

proof fn lemma_plain_front<T: PathUnit>(name: Seq<T>)
    requires
        is_plain_name(name),
    ensures
        front_len(name) == 0,
{
    assert(name.contains(name[0]));
    if name.len() == 1 {
        assert(name =~= seq![name[0]]);
    } else {
        assert(name.contains(name[1]));
    }
}

proof fn lemma_plain_first<T: PathUnit>(name: Seq<T>)
    requires
        is_plain_name(name),
    ensures
        name[0] != T::slash(),
        name.len() == 1 ==> name[0] != T::dot(),
{
    assert(name.contains(name[0]));
    if name.len() == 1 {
        assert(name =~= seq![name[0]]);
    }
}

proof fn lemma_component_at_root<T: PathUnit>(dir: Seq<T>)
    requires
        !dir.contains(T::slash()),
    ensures
        component_start(seq![T::slash()] + dir, 1) == 1,
    decreases dir.len(),
{
    let p = seq![T::slash()] + dir;
    if dir.len() > 0 {
        assert(p.last() == dir[dir.len() - 1]);
        assert(dir.contains(dir[dir.len() - 1]));
        assert(p.drop_last() =~= seq![T::slash()] + dir.drop_last());
        assert(!dir.drop_last().contains(T::slash())) by {
            if dir.drop_last().contains(T::slash()) {
                let i = choose|i: int|
                    0 <= i < dir.drop_last().len() && dir.drop_last()[i] == T::slash();
                assert(dir[i] == T::slash());
            }
        }
        lemma_component_at_root(dir.drop_last());
    }
}

/// A file that is renamed stays in its directory.
pub proof fn law_renamed_files_stay_where_they_are<T: PathUnit>(
    above: Seq<T>,
    dir: Seq<T>,
    name: Seq<T>,
    new: Seq<T>,
)
    requires
        T::slash() != T::dot(),
        is_plain_name(name),
        is_plain_name(dir),
        is_plain_name(new),
    ensures
        path_renamed(name, new) == new,
        path_renamed((above.push(T::slash()) + dir).push(T::slash()) + name, new) == (above.push(
            T::slash(),
        ) + dir).push(T::slash()) + new,
{
    law_files_stand_in_their_directories(above, dir, name);
    lemma_plain_first(new);
    lemma_plain_first(dir);
    let below = above.push(T::slash()) + dir;
    assert(below.last() == dir[dir.len() - 1]);
    assert(dir.contains(dir[dir.len() - 1]));
    assert(Seq::<T>::empty() + new =~= new);
}

/// An absolute path whose components are plain is taken from the root by leaving its slash away.
pub proof fn law_absolute_paths_stand_below_the_root<T: PathUnit>(dir: Seq<T>, name: Seq<T>)
    requires
        T::slash() != T::dot(),
        is_plain_name(name),
        is_plain_name(dir),
    ensures
        below_root(seq![T::slash()] + name) == name,
        below_root((seq![T::slash()] + dir).push(T::slash()) + name) == dir.push(T::slash()) + name,
{
    lemma_plain_first(name);
    lemma_plain_first(dir);
    let p = seq![T::slash()] + name;
    lemma_component_at_root(name);
    assert(p.skip(1) =~= name);
    assert(settled(p, 1) == p);
    lemma_advanced(name);
    let q = (seq![T::slash()] + dir).push(T::slash()) + name;
    lemma_component_behind(seq![T::slash()] + dir, name, 1);
    assert(q.skip(dir.len() as int + 2) =~= name);
    assert(settled(q, 1) == q);
    let rest = dir.push(T::slash()) + name;
    assert(q.skip(1) =~= rest);
    assert(rest[0] == dir[0]);
    if dir.len() > 1 {
        assert(rest[1] == dir[1]);
        assert(dir.contains(dir[1]));
    }
    assert(advanced(rest) == rest);
}

proof fn lemma_advanced<T: PathUnit>(name: Seq<T>)
    requires
        is_plain_name(name),
    ensures
        advanced(name) == name,
{
    lemma_plain_first(name);
    if name.len() > 1 {
        assert(name.contains(name[1]));
    }
}

/// Slashes at the end of a path mean nothing, and neither does a dot behind the last of them. A
/// path that ends with two dots has no file name.
pub proof fn law_the_end_of_a_path_may_mean_nothing<T: PathUnit>(p: Seq<T>)
    requires
        T::slash() != T::dot(),
        p.len() > front_len(p),
    ensures
        file_name_of(p.push(T::slash())) == file_name_of(p),
        parent_of(p.push(T::slash())) == parent_of(p),
        file_name_of(p + seq![T::slash(), T::dot()]) == file_name_of(p),
        parent_of(p + seq![T::slash(), T::dot()]) == parent_of(p),
        file_name_of(p + seq![T::slash(), T::dot(), T::dot()]) is None,
{
    let front = front_len(p);
    let slashed = p.push(T::slash());
    assert(front_len(slashed) == front);
    assert(slashed.take(p.len() as int) =~= p);
    assert(settled(slashed, front) == settled(p, front));
    let dot = seq![T::dot()];
    let dotted = p + seq![T::slash(), T::dot()];
    assert(dotted =~= slashed + dot);
    assert(front_len(dotted) == front);
    assert(!dot.contains(T::slash()));
    lemma_component_behind(p, dot, front);
    assert(dotted.skip(p.len() as int + 1) =~= dot);
    assert(dotted.take(p.len() as int) =~= p);
    assert(settled(dotted, front) == settled(p, front));
    let dots = seq![T::dot(), T::dot()];
    let up = p + seq![T::slash(), T::dot(), T::dot()];
    assert(up =~= slashed + dots);
    assert(front_len(up) == front);
    assert(!dots.contains(T::slash()));
    lemma_component_behind(p, dots, front);
    assert(up.skip(p.len() as int + 1) =~= dots);
    assert(dots.len() == 2);
    assert(settled(up, front) == up);
}

/// An absolute path of any depth is taken from the root by leaving its slash away, unless it starts
/// with components that mean nothing.
pub proof fn law_deep_paths_stand_below_the_root<T: PathUnit>(above: Seq<T>, name: Seq<T>)
    requires
        T::slash() != T::dot(),
        above.len() > 0,
        above[0] != T::slash(),
        above[0] != T::dot() || (above.len() > 1 && above[1] != T::slash()),
        is_plain_name(name),
    ensures
        below_root((seq![T::slash()] + above).push(T::slash()) + name) == above.push(T::slash())
            + name,
{
    let dir = seq![T::slash()] + above;
    let q = dir.push(T::slash()) + name;
    lemma_component_behind(dir, name, 1);
    assert(q.skip(dir.len() as int + 1) =~= name);
    assert(settled(q, 1) == q);
    let rest = above.push(T::slash()) + name;
    assert(q.skip(1) =~= rest);
    assert(rest[0] == above[0]);
    if above.len() > 1 {
        assert(rest[1] == above[1]);
    }
    assert(advanced(rest) == rest);
}

} // verus!
