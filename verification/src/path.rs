//! Paths as text: components, extension, normal form.
//!
//! A path is a string of components separated by `/`. Empty components and
//! the component `.` name no step and are passed over; `..` is kept as a
//! component of its own, so that it can be told apart and refused.
use vstd::prelude::*;
use vstd::string::*;
use crate::text::chars_of;

verus! {

/// The runs of characters between the separators of `s`, empty ones included.
/// There is always at least one.
pub open spec fn pieces(s: Seq<char>) -> Seq<Seq<char>>
    decreases s.len(),
{
    if s.len() == 0 {
        seq![Seq::empty()]
    } else {
        let before = pieces(s.drop_last());
        if s.last() == '/' {
            before.push(Seq::empty())
        } else {
            before.drop_last().push(before.last().push(s.last()))
        }
    }
}

/// Whether a piece is a component: it is neither empty nor `.`.
pub open spec fn is_component(piece: Seq<char>) -> bool {
    piece.len() > 0 && piece != "."@
}

/// The pieces that are components, in their order.
pub open spec fn kept(pieces: Seq<Seq<char>>) -> Seq<Seq<char>>
    decreases pieces.len(),
{
    if pieces.len() == 0 {
        Seq::empty()
    } else if is_component(pieces.last()) {
        kept(pieces.drop_last()).push(pieces.last())
    } else {
        kept(pieces.drop_last())
    }
}

/// The components of a path.
pub open spec fn components(s: Seq<char>) -> Seq<Seq<char>> {
    kept(pieces(s))
}

/// Whether a path starts at the root.
pub open spec fn is_rooted(s: Seq<char>) -> bool {
    s.len() > 0 && s[0] == '/'
}

/// Whether a path holds the component `..`.
pub open spec fn has_parent_reference(s: Seq<char>) -> bool {
    exists|i: int| 0 <= i < components(s).len() && #[trigger] components(s)[i] == ".."@
}

/// The components joined by single separators.
pub open spec fn joined(parts: Seq<Seq<char>>) -> Seq<char>
    decreases parts.len(),
{
    if parts.len() == 0 {
        Seq::empty()
    } else if parts.len() == 1 {
        parts[0]
    } else {
        joined(parts.drop_last()) + "/"@ + parts.last()
    }
}

/// The text of a path made of a root, if `rooted`, and of `parts`.
pub open spec fn path_text(rooted: bool, parts: Seq<Seq<char>>) -> Seq<char> {
    if rooted {
        "/"@ + joined(parts)
    } else {
        joined(parts)
    }
}

/// The normal form of a path: its root, if it has one, and its components,
/// with one separator between them and none at the end.
pub open spec fn normalized(s: Seq<char>) -> Seq<char> {
    path_text(is_rooted(s), components(s))
}

/// The place of the last `.` in a name, or -1 where it has none.
pub open spec fn last_dot(name: Seq<char>) -> int
    decreases name.len(),
{
    if name.len() == 0 {
        -1
    } else if name.last() == '.' {
        name.len() - 1
    } else {
        last_dot(name.drop_last())
    }
}

/// The extension of a file name: what follows its last `.`, unless that is
/// its first character.
pub open spec fn name_extension(name: Seq<char>) -> Option<Seq<char>> {
    if last_dot(name) <= 0 {
        None
    } else {
        Some(name.subrange(last_dot(name) + 1, name.len() as int))
    }
}

/// The extension of a path: that of its last component, if it has one and it
/// is not `..`.
pub open spec fn extension_of(s: Seq<char>) -> Option<Seq<char>> {
    if components(s).len() == 0 || components(s).last() == ".."@ {
        None
    } else {
        name_extension(components(s).last())
    }
}

/// Whether a path has an extension, and one other than `pdf`.
pub open spec fn has_foreign_extension(s: Seq<char>) -> bool {
    extension_of(s) matches Some(e) && e != "pdf"@
}

/// Whether the extension of a path is `pdf`, in lower case.
pub open spec fn has_pdf_extension(s: Seq<char>) -> bool {
    extension_of(s) == Some("pdf"@)
}

/// The directories above the last component of a path, outermost first: for
/// `a/b/c` these are `a` and `a/b`.
pub open spec fn ancestors_of(s: Seq<char>) -> Seq<Seq<char>> {
    Seq::new(
        if components(s).len() == 0 {
            0
        } else {
            (components(s).len() - 1) as nat
        },
        |k: int| path_text(is_rooted(s), components(s).take(k + 1)),
    )
}

/// The views of a list of strings.
pub open spec fn texts(list: Seq<String>) -> Seq<Seq<char>> {
    Seq::new(list.len(), |i: int| list[i]@)
}

/// The components of a path, in their order.
pub fn split_components(path: &str) -> (parts: Vec<String>)
    ensures
        texts(parts@) == components(path@),
{
    let cs = chars_of(path);
    let n = cs.len();
    let dot = String::from_str(".");
    let mut parts: Vec<String> = Vec::new();
    let mut start: usize = 0;
    let mut i: usize = 0;
    assert(path@.take(0) == Seq::<char>::empty());
    assert(pieces(path@.take(0)).drop_last() == Seq::<Seq<char>>::empty());
    assert(texts(parts@) == Seq::<Seq<char>>::empty());
    while i < n
        invariant
            n == path@.len(),
            cs@ == path@,
            dot@ == "."@,
            start <= i <= n,
            texts(parts@) == kept(pieces(path@.take(i as int)).drop_last()),
            pieces(path@.take(i as int)).last() == path@.subrange(start as int, i as int),
        decreases n - i,
    {
        let ghost before = pieces(path@.take(i as int));
        let ghost after = pieces(path@.take(i + 1));
        proof {
            assert(path@.take(i + 1).drop_last() == path@.take(i as int));
            assert(path@.take(i + 1).last() == path@[i as int]);
        }
        if cs[i] == '/' {
            let piece = String::from_str(path.substring_char(start, i));
            proof {
                assert(after == before.push(Seq::empty()));
                assert(after.drop_last() == before);
                assert(before.drop_last().push(before.last()) == before);
            }
            let ghost old_parts = parts@;
            if piece.as_str().unicode_len() > 0 && piece != dot {
                parts.push(piece);
                assert(texts(parts@) == texts(old_parts).push(piece@));
            }
            start = i + 1;
            assert(path@.subrange(i + 1, i + 1) == Seq::<char>::empty());
        } else {
            proof {
                assert(after == before.drop_last().push(before.last().push(path@[i as int])));
                assert(after.drop_last() == before.drop_last());
                assert(path@.subrange(start as int, i + 1) == path@.subrange(
                    start as int,
                    i as int,
                ).push(path@[i as int]));
            }
        }
        i += 1;
    }
    proof {
        assert(path@.take(n as int) == path@);
        let all = pieces(path@);
        assert(all.drop_last().push(all.last()) == all);
    }
    let piece = String::from_str(path.substring_char(start, n));
    let ghost old_parts = parts@;
    if piece.as_str().unicode_len() > 0 && piece != dot {
        parts.push(piece);
        assert(texts(parts@) == texts(old_parts).push(piece@));
    }
    parts
}

/// Whether a path starts with a separator.
pub fn starts_at_root(path: &str) -> (r: bool)
    ensures
        r == is_rooted(path@),
{
    path.unicode_len() > 0 && path.get_char(0) == '/'
}

/// The text of a path made of a root, if `rooted`, and of the first `count`
/// of `parts`.
fn join_parts(rooted: bool, parts: &Vec<String>, count: usize) -> (r: String)
    requires
        count <= parts@.len(),
    ensures
        r@ == path_text(rooted, texts(parts@).take(count as int)),
{
    let mut out = if rooted {
        String::from_str("/")
    } else {
        String::new()
    };
    let ghost lead = out@;
    let mut i: usize = 0;
    assert(texts(parts@).take(0) == Seq::<Seq<char>>::empty());
    assert(lead + Seq::<char>::empty() == lead);
    while i < count
        invariant
            i <= count <= parts@.len(),
            lead == (if rooted {
                "/"@
            } else {
                Seq::<char>::empty()
            }),
            out@ == lead + joined(texts(parts@).take(i as int)),
        decreases count - i,
    {
        let ghost done = texts(parts@).take(i as int);
        let ghost next = texts(parts@).take(i + 1);
        proof {
            assert(next.drop_last() == done);
            assert(next.last() == parts@[i as int]@);
        }
        if i > 0 {
            out.append("/");
        } else {
            assert(joined(done) == Seq::<char>::empty());
            assert(joined(next) == parts@[i as int]@);
        }
        out.append(parts[i].as_str());
        assert(out@ == lead + joined(next));
        i += 1;
    }
    proof {
        if !rooted {
            assert(Seq::<char>::empty() + joined(texts(parts@).take(count as int)) == joined(
                texts(parts@).take(count as int),
            ));
        }
    }
    out
}

/// Normalizes a path: `./some.file` becomes `some.file`, `a//b/` becomes
/// `a/b`. A `..` stays where it is.
pub fn normalize_path_buf(source: &str) -> (r: String)
    ensures
        r@ == normalized(source@),
{
    let parts = split_components(source);
    proof {
        assert(texts(parts@).take(parts@.len() as int) == texts(parts@));
    }
    join_parts(starts_at_root(source), &parts, parts.len())
}

/// Whether a path holds the component `..`.
pub fn contains_parent_reference(path: &str) -> (r: bool)
    ensures
        r == has_parent_reference(path@),
{
    let parts = split_components(path);
    let up = String::from_str("..");
    let mut i: usize = 0;
    while i < parts.len()
        invariant
            i <= parts@.len(),
            up@ == ".."@,
            texts(parts@) == components(path@),
            forall|j: int| 0 <= j < i ==> #[trigger] components(path@)[j] != ".."@,
        decreases parts@.len() - i,
    {
        assert(texts(parts@)[i as int] == parts@[i as int]@);
        if parts[i] == up {
            return true;
        }
        i += 1;
    }
    assert(texts(parts@).len() == parts@.len());
    false
}

/// The place of the last `.` in a name.
fn find_last_dot(name: &Vec<char>) -> (r: Option<usize>)
    ensures
        match r {
            Some(d) => last_dot(name@) == d && d < name@.len(),
            None => last_dot(name@) == -1,
        },
{
    let mut found: Option<usize> = None;
    let mut i: usize = 0;
    assert(name@.take(0) == Seq::<char>::empty());
    while i < name.len()
        invariant
            i <= name@.len(),
            match found {
                Some(d) => last_dot(name@.take(i as int)) == d && d < i,
                None => last_dot(name@.take(i as int)) == -1,
            },
        decreases name@.len() - i,
    {
        proof {
            assert(name@.take(i + 1).drop_last() == name@.take(i as int));
            assert(name@.take(i + 1).last() == name@[i as int]);
        }
        if name[i] == '.' {
            found = Some(i);
        }
        i += 1;
    }
    assert(name@.take(i as int) == name@);
    found
}

/// The extension of a path, if it has one.
pub fn extension(path: &str) -> (r: Option<String>)
    ensures
        match r {
            Some(e) => extension_of(path@) == Some(e@),
            None => extension_of(path@).is_none(),
        },
{
    let parts = split_components(path);
    if parts.len() == 0 {
        return None;
    }
    let name = &parts[parts.len() - 1];
    proof {
        assert(texts(parts@).last() == name@);
    }
    let up = String::from_str("..");
    if *name == up {
        return None;
    }
    let cs = chars_of(name.as_str());
    match find_last_dot(&cs) {
        None => None,
        Some(d) => {
            if d == 0 || d >= cs.len() {
                None
            } else {
                Some(String::from_str(name.as_str().substring_char(d + 1, cs.len())))
            }
        },
    }
}

/// Whether a path has an extension other than `pdf`.
pub fn is_foreign_file_name(path: &str) -> (r: bool)
    ensures
        r == has_foreign_extension(path@),
{
    match extension(path) {
        Some(e) => e != String::from_str("pdf"),
        None => false,
    }
}

/// Whether a path ends in `.pdf`.
pub fn is_pdf_file_name(path: &str) -> (r: bool)
    ensures
        r == has_pdf_extension(path@),
{
    match extension(path) {
        Some(e) => e == String::from_str("pdf"),
        None => false,
    }
}

/// The directories above the last component of a path, outermost first.
pub fn ancestors(path: &str) -> (r: Vec<String>)
    ensures
        texts(r@) == ancestors_of(path@),
{
    let parts = split_components(path);
    let rooted = starts_at_root(path);
    let mut out: Vec<String> = Vec::new();
    if parts.len() == 0 {
        assert(texts(out@) == ancestors_of(path@));
        return out;
    }
    let mut k: usize = 0;
    assert(texts(parts@).len() == parts@.len());
    while k < parts.len() - 1
        invariant
            parts@.len() > 0,
            k <= parts@.len() - 1,
            rooted == is_rooted(path@),
            texts(parts@) == components(path@),
            out@.len() == k,
            forall|j: int|
                0 <= j < k ==> (#[trigger] out@[j])@ == path_text(
                    rooted,
                    components(path@).take(j + 1),
                ),
        decreases parts@.len() - k,
    {
        let text = join_parts(rooted, &parts, k + 1);
        out.push(text);
        k += 1;
    }
    assert(texts(out@) == ancestors_of(path@));
    out
}

} // verus!
