//! Paths as text: joining a component to a directory, and finding the
//! directory that holds a path.

use vstd::prelude::*;
use vstd::string::StringExecFns;
use vstd::string::StrSliceExecFns;
use crate::platform::Platform;
use crate::text::to_chars;

verus! {

/// `base` with the component `part` appended: directly where `base` is empty
/// or already ends in a separator, after one separator otherwise.
pub open spec fn join_spec(base: Seq<char>, part: Seq<char>, platform: Platform) -> Seq<char> {
    if base.len() == 0 || platform.is_separator_spec(base.last()) {
        base + part
    } else {
        base.push(platform.separator_spec()) + part
    }
}

/// `base` with the component `part` appended.
pub fn join(base: &str, part: &str, platform: Platform) -> (path: String)
    ensures
        path@ == join_spec(base@, part@, platform),
{
    let n = base.unicode_len();
    let mut path = String::from_str(base);
    if n > 0 && !platform.is_separator(base.get_char(n - 1)) {
        proof {
            reveal_strlit("\\");
            reveal_strlit("/");
        }
        match platform {
            Platform::Windows => {
                path.append("\\");
                assert(path@ == base@.push('\\'));
            },
            Platform::Unix => {
                path.append("/");
                assert(path@ == base@.push('/'));
            },
        }
    }
    path.append(part);
    path
}

/// `s` without the separators at its end.
pub open spec fn strip_trailing_separators(s: Seq<char>, platform: Platform) -> Seq<char>
    decreases s.len(),
{
    if s.len() > 0 && platform.is_separator_spec(s.last()) {
        strip_trailing_separators(s.drop_last(), platform)
    } else {
        s
    }
}

/// The length of `s` up to and including its last separator; 0 where it has none.
pub open spec fn dirname_len(s: Seq<char>, platform: Platform) -> nat
    decreases s.len(),
{
    if s.len() > 0 && !platform.is_separator_spec(s.last()) {
        dirname_len(s.drop_last(), platform)
    } else {
        s.len()
    }
}

/// The directory that holds `path`: `path` without its last component and
/// without the separators before it. A path made of separators alone, or of
/// nothing, has no parent; a single relative component has the empty path as
/// its parent; what lies directly under a root has that root.
pub open spec fn parent_spec(path: Seq<char>, platform: Platform) -> Option<Seq<char>> {
    let t = strip_trailing_separators(path, platform);
    if t.len() == 0 {
        None
    } else {
        let head = t.take(dirname_len(t, platform) as int);
        let dir = strip_trailing_separators(head, platform);
        if dir.len() == 0 {
            Some(head)
        } else {
            Some(dir)
        }
    }
}

/// A joined path holds its base, its component, and at most one separator
/// more; the base stands at its start and the component at its end.
pub proof fn lemma_join_shape(base: Seq<char>, part: Seq<char>, platform: Platform)
    ensures
        base.len() + part.len() <= join_spec(base, part, platform).len() <= base.len() + part.len()
            + 1,
        join_spec(base, part, platform).take(base.len() as int) == base,
        join_spec(base, part, platform).skip(join_spec(base, part, platform).len() - part.len())
            == part,
{
}

/// The length of `chars[..end]` without the separators at its end.
fn stripped_len(chars: &Vec<char>, end: usize, platform: Platform) -> (n: usize)
    requires
        end <= chars.len(),
    ensures
        n <= end,
        chars@.take(n as int) == strip_trailing_separators(chars@.take(end as int), platform),
{
    let mut n: usize = end;
    while n > 0 && platform.is_separator(chars[n - 1])
        invariant
            n <= end <= chars.len(),
            strip_trailing_separators(chars@.take(n as int), platform)
                == strip_trailing_separators(chars@.take(end as int), platform),
        decreases n,
    {
        assert(chars@.take(n as int).drop_last() == chars@.take(n as int - 1));
        n = n - 1;
    }
    n
}

/// The directory that holds `path`, if it has one.
pub fn parent_dir(path: &str, platform: Platform) -> (parent: Option<String>)
    ensures
        parent.deep_view() == parent_spec(path@, platform),
{
    let chars = to_chars(path);
    let end = stripped_len(&chars, chars.len(), platform);
    assert(chars@.take(chars.len() as int) == chars@);
    if end == 0 {
        return None;
    }
    let ghost t = chars@.take(end as int);
    assert(t.take(end as int) == t);
    let mut k: usize = end;
    while k > 0 && !platform.is_separator(chars[k - 1])
        invariant
            k <= end <= chars.len(),
            t == chars@.take(end as int),
            dirname_len(t.take(k as int), platform) == dirname_len(t, platform),
        decreases k,
    {
        assert(t.take(k as int).drop_last() == t.take(k as int - 1));
        k = k - 1;
    }
    assert(dirname_len(t, platform) == k) by {
        let h = t.take(k as int);
        if k > 0 {
            assert(h.last() == chars@[k as int - 1]);
        }
    }
    assert(t.take(k as int) == chars@.take(k as int));
    let d = stripped_len(&chars, k, platform);
    let cut = if d == 0 {
        k
    } else {
        d
    };
    let parent = String::from_str(path.substring_char(0, cut));
    assert(path@.subrange(0, cut as int) == chars@.take(cut as int));
    Some(parent)
}

} // verus!
