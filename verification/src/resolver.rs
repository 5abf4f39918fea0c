//! Finding the directory that holds the service bundle.

use vstd::prelude::*;
use vstd::string::StringExecFns;
use crate::error::RuntimeError;
use crate::error::RuntimeErrorView;
use crate::paths::join;
use crate::paths::join_spec;
use crate::paths::parent_dir;
use crate::paths::parent_spec;
use crate::platform::exe_name;
use crate::platform::exe_name_spec;
use crate::platform::Platform;
use crate::sequences::first_index;
use crate::sequences::lemma_first_index;
use crate::sequences::lemma_stretch_of_part;
use crate::sequences::lemma_without_repeats_distinct;
use crate::sequences::lemma_without_repeats_keeps_order;
use crate::sequences::lemma_without_repeats_same_items;
use crate::sequences::without_repeats;
use crate::snapshot::contains_path;
use crate::snapshot::FileSnapshot;

verus! {

/// `paths` without the paths that repeat an earlier one, in the same order.
pub fn dedup_paths(paths: Vec<String>) -> (unique: Vec<String>)
    ensures
        unique.deep_view() == without_repeats(paths.deep_view()),
{
    let mut unique: Vec<String> = Vec::new();
    let mut i: usize = 0;
    assert(paths.deep_view().take(0) == Seq::<Seq<char>>::empty());
    assert(unique.deep_view() == Seq::<Seq<char>>::empty());
    while i < paths.len()
        invariant
            i <= paths.len(),
            unique.deep_view() == without_repeats(paths.deep_view().take(i as int)),
        decreases paths.len() - i,
    {
        let ghost before = unique.deep_view();
        assert(paths.deep_view().take(i as int + 1).drop_last() == paths.deep_view().take(i as int));
        assert(paths.deep_view().take(i as int + 1).last() == paths[i as int]@);
        if !contains_path(&unique, &paths[i]) {
            unique.push(paths[i].clone());
            assert(unique.deep_view() == before.push(paths[i as int]@));
        }
        i = i + 1;
    }
    assert(paths.deep_view().take(paths.len() as int) == paths.deep_view());
    unique
}

/// The directories from which the search starts, as the host reports them.
/// Each is absent where the host could not tell.
#[derive(Debug)]
pub struct HostDirs {
    /// The path of the running executable.
    pub current_exe: Option<String>,
    /// The directory that the platform names as holding the executable.
    pub executable_dir: Option<String>,
    /// The bundled resource directory `runtime`.
    pub resource_runtime: Option<String>,
    /// The bundled resource directory `_up_/runtime`.
    pub resource_nested_runtime: Option<String>,
    /// The bundled resource file `CHANGELOG.json`.
    pub resource_changelog: Option<String>,
    /// The per-user data directory.
    pub data_dir: Option<String>,
}

/// The mathematical value of a [`HostDirs`].
pub struct HostDirsView {
    pub current_exe: Option<Seq<char>>,
    pub executable_dir: Option<Seq<char>>,
    pub resource_runtime: Option<Seq<char>>,
    pub resource_nested_runtime: Option<Seq<char>>,
    pub resource_changelog: Option<Seq<char>>,
    pub data_dir: Option<Seq<char>>,
}

impl View for HostDirs {
    type V = HostDirsView;

    open spec fn view(&self) -> HostDirsView {
        HostDirsView {
            current_exe: self.current_exe.deep_view(),
            executable_dir: self.executable_dir.deep_view(),
            resource_runtime: self.resource_runtime.deep_view(),
            resource_nested_runtime: self.resource_nested_runtime.deep_view(),
            resource_changelog: self.resource_changelog.deep_view(),
            data_dir: self.data_dir.deep_view(),
        }
    }
}

/// The four places under `base` where the bundle may lie: the flat layouts
/// `base` and `base/_up_` first, then the nested ones, `base/runtime` and
/// `base/_up_/runtime`.
pub open spec fn layout_candidates(base: Seq<char>, platform: Platform) -> Seq<Seq<char>> {
    seq![
        base,
        join_spec(base, "_up_"@, platform),
        join_spec(base, "runtime"@, platform),
        join_spec(join_spec(base, "_up_"@, platform), "runtime"@, platform),
    ]
}

/// The layouts under `dir`, where there is a `dir`.
pub open spec fn optional_layout(dir: Option<Seq<char>>, platform: Platform) -> Seq<Seq<char>> {
    match dir {
        Some(d) => layout_candidates(d, platform),
        None => Seq::empty(),
    }
}

/// The layouts under `dir`, then those under its parent.
pub open spec fn layouts_around(dir: Seq<char>, platform: Platform) -> Seq<Seq<char>> {
    layout_candidates(dir, platform) + optional_layout(parent_spec(dir, platform), platform)
}

/// What a bundled resource directory suggests: the layouts under its
/// parent, which is the base, and then the directory itself, for the case
/// that it is none of them.
pub open spec fn resource_candidates(path: Option<Seq<char>>, platform: Platform) -> Seq<
    Seq<char>,
> {
    match path {
        Some(p) => optional_layout(parent_spec(p, platform), platform) + seq![p],
        None => Seq::empty(),
    }
}

/// Every place that the host's directories suggest, repetitions included:
/// around the executable's directory, around the platform's executable
/// directory, then the two resource directories.
pub open spec fn raw_candidates(host: HostDirsView, platform: Platform) -> Seq<Seq<char>> {
    beside_exe(host, platform) + beside_app(host, platform) + resource_candidates(
        host.resource_runtime,
        platform,
    ) + resource_candidates(host.resource_nested_runtime, platform)
}

/// The candidate roots in the order in which they are tried.
pub open spec fn root_candidates(host: HostDirsView, platform: Platform) -> Seq<Seq<char>> {
    without_repeats(raw_candidates(host, platform))
}

/// Appends the four layouts under `base_dir` to `candidates`.
pub fn push_layout_candidates(candidates: &mut Vec<String>, base_dir: &str, platform: Platform)
    ensures
        final(candidates).deep_view() == old(candidates).deep_view() + layout_candidates(
            base_dir@,
            platform,
        ),
{
    let up = join(base_dir, "_up_", platform);
    candidates.push(String::from_str(base_dir));
    candidates.push(join(base_dir, "_up_", platform));
    candidates.push(join(base_dir, "runtime", platform));
    candidates.push(join(up.as_str(), "runtime", platform));
}

/// Appends the layouts under `dir`, then those under its parent.
fn push_layouts_around(candidates: &mut Vec<String>, dir: &str, platform: Platform)
    ensures
        final(candidates).deep_view() == old(candidates).deep_view() + layouts_around(
            dir@,
            platform,
        ),
{
    push_layout_candidates(candidates, dir, platform);
    match parent_dir(dir, platform) {
        Some(parent) => {
            push_layout_candidates(candidates, parent.as_str(), platform);
        },
        None => {},
    }
}

/// Appends the layouts under the parent of a resource directory, then the
/// directory itself.
fn push_resource_candidates(candidates: &mut Vec<String>, path: &Option<String>, platform: Platform)
    ensures
        final(candidates).deep_view() == old(candidates).deep_view() + resource_candidates(
            path.deep_view(),
            platform,
        ),
{
    match path {
        Some(p) => {
            match parent_dir(p.as_str(), platform) {
                Some(parent) => {
                    push_layout_candidates(candidates, parent.as_str(), platform);
                },
                None => {},
            }
            let ghost around = candidates.deep_view();
            assert(around == old(candidates).deep_view() + optional_layout(
                parent_spec(p@, platform),
                platform,
            ));
            candidates.push(p.clone());
            assert(candidates.deep_view() == around + seq![p@]);
        },
        None => {},
    }
}

/// The candidate roots in the order in which they are to be tried, each once.
pub fn candidate_runtime_roots(host: &HostDirs, platform: Platform) -> (candidates: Vec<String>)
    ensures
        candidates.deep_view() == root_candidates(host@, platform),
{
    let mut raw: Vec<String> = Vec::new();
    assert(raw.deep_view() == Seq::<Seq<char>>::empty());
    match &host.current_exe {
        Some(exe) => match parent_dir(exe.as_str(), platform) {
            Some(dir) => {
                push_layouts_around(&mut raw, dir.as_str(), platform);
            },
            None => {},
        },
        None => {},
    }
    match &host.executable_dir {
        Some(dir) => {
            push_layouts_around(&mut raw, dir.as_str(), platform);
        },
        None => {},
    }
    push_resource_candidates(&mut raw, &host.resource_runtime, platform);
    push_resource_candidates(&mut raw, &host.resource_nested_runtime, platform);
    assert(raw.deep_view() == raw_candidates(host@, platform));
    dedup_paths(raw)
}

/// How long the four layouts under `base` are.
proof fn lemma_layout_lengths(base: Seq<char>, platform: Platform)
    ensures
        layout_candidates(base, platform).len() == 4,
        layout_candidates(base, platform)[0].len() == base.len(),
        base.len() + 4 <= layout_candidates(base, platform)[1].len() <= base.len() + 5,
        base.len() + 7 <= layout_candidates(base, platform)[2].len() <= base.len() + 8,
        base.len() + 12 <= layout_candidates(base, platform)[3].len() <= base.len() + 13,
{
    reveal_strlit("_up_");
    reveal_strlit("runtime");
    let up = join_spec(base, "_up_"@, platform);
    assert("_up_"@.len() == 4);
    assert("runtime"@.len() == 7);
    assert("_up_"@[3] == '_');
    assert(up.len() > 0);
    assert(up.last() == '_');
    assert(!platform.is_separator_spec('_'));
    assert(join_spec(up, "runtime"@, platform).len() == up.len() + 8);
}

/// The four layouts under one base are four different paths.
pub proof fn lemma_layouts_differ(base: Seq<char>, platform: Platform)
    ensures
        layout_candidates(base, platform).len() == 4,
        layout_candidates(base, platform).no_duplicates(),
{
    lemma_layout_lengths(base, platform);
    let layout = layout_candidates(base, platform);
    assert forall|i: int, j: int| 0 <= i < layout.len() && 0 <= j < layout.len() && i != j implies layout[i]
        != layout[j] by {
        assert(layout[i].len() != layout[j].len());
    }
}

/// The candidate roots hold no path twice, hold every path that the host's
/// directories suggest and no other, and stand in the order in which those
/// paths first come up.
pub proof fn lemma_candidates_unique_and_stable(host: HostDirsView, platform: Platform)
    ensures
        root_candidates(host, platform).no_duplicates(),
        forall|x: Seq<char>|
            root_candidates(host, platform).contains(x) <==> raw_candidates(host, platform).contains(
                x,
            ),
        forall|i: int, j: int|
            #![trigger root_candidates(host, platform)[i], root_candidates(host, platform)[j]]
            0 <= i < j < root_candidates(host, platform).len() ==> first_index(
                raw_candidates(host, platform),
                root_candidates(host, platform)[i],
            ) < first_index(raw_candidates(host, platform), root_candidates(host, platform)[j]),
{
    let raw = raw_candidates(host, platform);
    let kept = root_candidates(host, platform);
    lemma_without_repeats_distinct(raw);
    lemma_without_repeats_same_items(raw);
    assert forall|i: int, j: int| 0 <= i < j < kept.len() implies first_index(raw, kept[i])
        < first_index(raw, kept[j]) by {
        lemma_without_repeats_keeps_order(raw, i, j);
    }
}

/// Where the four layouts of `base` stand in `raw` from index `at` on, a
/// flat layout of `base` precedes a nested one once repetitions are
/// removed, unless that nested layout has come up in `raw` even before the
/// flat one first did: as a candidate of an earlier base.
pub proof fn lemma_flat_before_nested(
    raw: Seq<Seq<char>>,
    at: int,
    base: Seq<char>,
    platform: Platform,
    flat: int,
    nested: int,
)
    requires
        0 <= at,
        at + 4 <= raw.len(),
        raw.subrange(at, at + 4) == layout_candidates(base, platform),
        0 <= flat < 2,
        2 <= nested < 4,
        !raw.take(first_index(raw, layout_candidates(base, platform)[flat])).contains(
            layout_candidates(base, platform)[nested],
        ),
    ensures
        without_repeats(raw).contains(layout_candidates(base, platform)[flat]),
        without_repeats(raw).contains(layout_candidates(base, platform)[nested]),
        first_index(without_repeats(raw), layout_candidates(base, platform)[flat]) < first_index(
            without_repeats(raw),
            layout_candidates(base, platform)[nested],
        ),
{
    let layout = layout_candidates(base, platform);
    let kept = without_repeats(raw);
    let x = layout[flat];
    let y = layout[nested];
    lemma_layouts_differ(base, platform);
    assert forall|k: int| 0 <= k < 4 implies raw[at + k] == #[trigger] layout[k] by {
        assert(raw.subrange(at, at + 4)[k] == raw[at + k]);
    }
    assert(raw[at + flat] == x);
    assert(raw[at + nested] == y);
    lemma_first_index(raw, x);
    lemma_first_index(raw, y);
    assert(first_index(raw, x) < first_index(raw, y)) by {
        let f = first_index(raw, y);
        if f < first_index(raw, x) {
            assert(raw.take(first_index(raw, x))[f] == y);
        }
    }
    lemma_without_repeats_same_items(raw);
    lemma_without_repeats_distinct(raw);
    assert(raw.contains(x) && raw.contains(y));
    assert(kept.contains(x) && kept.contains(y));
    lemma_first_index(kept, x);
    lemma_first_index(kept, y);
    let a = first_index(kept, x);
    let b = first_index(kept, y);
    if b < a {
        lemma_without_repeats_keeps_order(raw, b, a);
    }
}

/// For the base whose layouts open the list, the flat layouts precede the
/// nested ones without any condition.
pub proof fn lemma_leading_base_flat_first(
    raw: Seq<Seq<char>>,
    base: Seq<char>,
    platform: Platform,
    flat: int,
    nested: int,
)
    requires
        4 <= raw.len(),
        raw.subrange(0, 4) == layout_candidates(base, platform),
        0 <= flat < 2,
        2 <= nested < 4,
    ensures
        first_index(without_repeats(raw), layout_candidates(base, platform)[flat]) < first_index(
            without_repeats(raw),
            layout_candidates(base, platform)[nested],
        ),
{
    let layout = layout_candidates(base, platform);
    lemma_layouts_differ(base, platform);
    assert forall|k: int| 0 <= k < 4 implies raw[k] == #[trigger] layout[k] by {
        assert(raw.subrange(0, 4)[k] == raw[k]);
    }
    assert(raw[flat] == layout[flat]);
    lemma_first_index(raw, layout[flat]);
    let first = first_index(raw, layout[flat]);
    assert(!raw.take(first).contains(layout[nested])) by {
        if raw.take(first).contains(layout[nested]) {
            let j = choose|j: int| 0 <= j < first && raw.take(first)[j] == layout[nested];
            assert(raw[j] == layout[j]);
        }
    }
    lemma_flat_before_nested(raw, 0, base, platform, flat, nested);
}

/// A directory and its parent, where it has one: the bases around it.
pub open spec fn bases_around(dir: Seq<char>, platform: Platform) -> Seq<Seq<char>> {
    match parent_spec(dir, platform) {
        Some(parent) => seq![dir, parent],
        None => seq![dir],
    }
}

/// The base that a bundled resource directory stands for: its parent.
pub open spec fn resource_base(path: Option<Seq<char>>, platform: Platform) -> Seq<Seq<char>> {
    match path {
        Some(p) => match parent_spec(p, platform) {
            Some(parent) => seq![parent],
            None => Seq::empty(),
        },
        None => Seq::empty(),
    }
}

/// The bases around the executable, going by its path.
pub open spec fn exe_bases(host: HostDirsView, platform: Platform) -> Seq<Seq<char>> {
    match host.current_exe {
        Some(exe) => match parent_spec(exe, platform) {
            Some(dir) => bases_around(dir, platform),
            None => Seq::empty(),
        },
        None => Seq::empty(),
    }
}

/// The bases around the directory that the platform names for the executable.
pub open spec fn app_bases(host: HostDirsView, platform: Platform) -> Seq<Seq<char>> {
    match host.executable_dir {
        Some(dir) => bases_around(dir, platform),
        None => Seq::empty(),
    }
}

/// Every base directory that is taken into account, in the order in which
/// its layouts are appended: the executable's directory and its parent,
/// the platform's executable directory and its parent, and the directory
/// that holds each of the two bundled resource directories.
pub open spec fn candidate_bases(host: HostDirsView, platform: Platform) -> Seq<Seq<char>> {
    exe_bases(host, platform) + app_bases(host, platform) + resource_base(
        host.resource_runtime,
        platform,
    ) + resource_base(host.resource_nested_runtime, platform)
}

/// The candidates beside the executable, going by its path.
pub open spec fn beside_exe(host: HostDirsView, platform: Platform) -> Seq<Seq<char>> {
    match host.current_exe {
        Some(exe) => match parent_spec(exe, platform) {
            Some(dir) => layouts_around(dir, platform),
            None => Seq::empty(),
        },
        None => Seq::empty(),
    }
}

/// The candidates beside the directory that the platform names for the
/// executable.
pub open spec fn beside_app(host: HostDirsView, platform: Platform) -> Seq<Seq<char>> {
    match host.executable_dir {
        Some(dir) => layouts_around(dir, platform),
        None => Seq::empty(),
    }
}

/// Where the layouts of the base number `k` begin among the raw candidates.
pub open spec fn base_offset(host: HostDirsView, platform: Platform, k: int) -> int {
    let before_second = exe_bases(host, platform).len() + app_bases(host, platform).len()
        + resource_base(host.resource_runtime, platform).len();
    if k < before_second || host.resource_runtime is None {
        4 * k
    } else {
        4 * k + 1
    }
}

/// The layouts around a directory are those of its bases, four for each.
proof fn lemma_layouts_around(dir: Seq<char>, platform: Platform, j: int)
    requires
        0 <= j < bases_around(dir, platform).len(),
    ensures
        layouts_around(dir, platform).len() == 4 * bases_around(dir, platform).len(),
        layouts_around(dir, platform).subrange(4 * j, 4 * j + 4) == layout_candidates(
            bases_around(dir, platform)[j],
            platform,
        ),
{
}

/// What a resource directory suggests begins with the layouts of its base.
proof fn lemma_resource_layouts(path: Option<Seq<char>>, platform: Platform)
    ensures
        resource_candidates(path, platform).len() == 4 * resource_base(path, platform).len() + (
        if path is Some {
            1int
        } else {
            0int
        }),
        resource_base(path, platform).len() <= 1,
        resource_base(path, platform).len() == 1 ==> resource_candidates(path, platform).subrange(
            0,
            4,
        ) == layout_candidates(resource_base(path, platform)[0], platform),
{
}

/// The candidates beside the executable are the layouts of the bases
/// around it, four for each.
proof fn lemma_beside_exe(host: HostDirsView, platform: Platform, j: int)
    ensures
        beside_exe(host, platform).len() == 4 * exe_bases(host, platform).len(),
        0 <= j < exe_bases(host, platform).len() ==> beside_exe(host, platform).subrange(
            4 * j,
            4 * j + 4,
        ) == layout_candidates(exe_bases(host, platform)[j], platform),
{
    if exe_bases(host, platform).len() > 0 {
        let dir = parent_spec(host.current_exe->Some_0, platform)->Some_0;
        lemma_layouts_around(dir, platform, 0);
        if 0 <= j < exe_bases(host, platform).len() {
            lemma_layouts_around(dir, platform, j);
        }
    }
}

/// The candidates beside the platform's executable directory are the
/// layouts of the bases around it, four for each.
proof fn lemma_beside_app(host: HostDirsView, platform: Platform, j: int)
    ensures
        beside_app(host, platform).len() == 4 * app_bases(host, platform).len(),
        0 <= j < app_bases(host, platform).len() ==> beside_app(host, platform).subrange(
            4 * j,
            4 * j + 4,
        ) == layout_candidates(app_bases(host, platform)[j], platform),
{
    if app_bases(host, platform).len() > 0 {
        let dir = host.executable_dir->Some_0;
        lemma_layouts_around(dir, platform, 0);
        if 0 <= j < app_bases(host, platform).len() {
            lemma_layouts_around(dir, platform, j);
        }
    }
}

/// The four layouts of every base stand together among the raw candidates,
/// in their order: flat, flat, nested, nested.
pub proof fn lemma_base_layouts_stand_together(host: HostDirsView, platform: Platform, k: int)
    requires
        0 <= k < candidate_bases(host, platform).len(),
    ensures
        0 <= base_offset(host, platform, k),
        base_offset(host, platform, k) + 4 <= raw_candidates(host, platform).len(),
        raw_candidates(host, platform).subrange(
            base_offset(host, platform, k),
            base_offset(host, platform, k) + 4,
        ) == layout_candidates(candidate_bases(host, platform)[k], platform),
{
    let a = exe_bases(host, platform);
    let b = app_bases(host, platform);
    let c = resource_base(host.resource_runtime, platform);
    let d = resource_base(host.resource_nested_runtime, platform);
    let p0 = beside_exe(host, platform);
    let p1 = beside_app(host, platform);
    let p2 = resource_candidates(host.resource_runtime, platform);
    let p3 = resource_candidates(host.resource_nested_runtime, platform);
    lemma_resource_layouts(host.resource_runtime, platform);
    lemma_resource_layouts(host.resource_nested_runtime, platform);
    if k < a.len() {
        lemma_beside_exe(host, platform, k);
        lemma_beside_app(host, platform, 0);
        lemma_stretch_of_part(p0, p1, p2, p3, 4 * k, 4 * k + 4);
    } else if k < a.len() + b.len() {
        let j = k - a.len();
        lemma_beside_exe(host, platform, 0);
        lemma_beside_app(host, platform, j);
        lemma_stretch_of_part(p0, p1, p2, p3, 4 * j, 4 * j + 4);
    } else {
        lemma_beside_exe(host, platform, 0);
        lemma_beside_app(host, platform, 0);
        lemma_stretch_of_part(p0, p1, p2, p3, 0, 4);
    }
}

/// For every base directory that is taken into account, a flat layout
/// precedes a nested one in the list of candidates, unless that nested
/// layout is itself a candidate that an earlier directory has brought up
/// even before the flat one first came.
pub proof fn lemma_flat_before_nested_of_base(
    host: HostDirsView,
    platform: Platform,
    k: int,
    flat: int,
    nested: int,
)
    requires
        0 <= k < candidate_bases(host, platform).len(),
        0 <= flat < 2,
        2 <= nested < 4,
        !raw_candidates(host, platform).take(
            first_index(
                raw_candidates(host, platform),
                layout_candidates(candidate_bases(host, platform)[k], platform)[flat],
            ),
        ).contains(layout_candidates(candidate_bases(host, platform)[k], platform)[nested]),
    ensures
        first_index(
            root_candidates(host, platform),
            layout_candidates(candidate_bases(host, platform)[k], platform)[flat],
        ) < first_index(
            root_candidates(host, platform),
            layout_candidates(candidate_bases(host, platform)[k], platform)[nested],
        ),
{
    lemma_base_layouts_stand_together(host, platform, k);
    lemma_flat_before_nested(
        raw_candidates(host, platform),
        base_offset(host, platform, k),
        candidate_bases(host, platform)[k],
        platform,
        flat,
        nested,
    );
}

/// For the first base directory that is taken into account, the flat
/// layouts precede the nested ones without any condition.
pub proof fn lemma_first_base_flat_first(host: HostDirsView, platform: Platform, flat: int, nested: int)
    requires
        candidate_bases(host, platform).len() > 0,
        0 <= flat < 2,
        2 <= nested < 4,
    ensures
        first_index(
            root_candidates(host, platform),
            layout_candidates(candidate_bases(host, platform)[0], platform)[flat],
        ) < first_index(
            root_candidates(host, platform),
            layout_candidates(candidate_bases(host, platform)[0], platform)[nested],
        ),
{
    lemma_base_layouts_stand_together(host, platform, 0);
    assert(base_offset(host, platform, 0) == 0 || base_offset(host, platform, 0) == 1);
    if base_offset(host, platform, 0) == 0 {
        lemma_leading_base_flat_first(
            raw_candidates(host, platform),
            candidate_bases(host, platform)[0],
            platform,
            flat,
            nested,
        );
    } else {
        // A resource directory without a parent stands before the first
        // base. It is made of separators alone, and no layout is.
        let raw = raw_candidates(host, platform);
        let base = candidate_bases(host, platform)[0];
        let layout = layout_candidates(base, platform);
        let lone = host.resource_runtime->Some_0;
        lemma_resource_layouts(host.resource_runtime, platform);
        assert(resource_candidates(host.resource_runtime, platform) == seq![lone]);
        assert(beside_exe(host, platform).len() == 0 && beside_app(host, platform).len() == 0) by {
            if exe_bases(host, platform).len() > 0 || app_bases(host, platform).len() > 0 {
                assert(false);
            }
        }
        assert(raw[0] == lone);
        lemma_layouts_differ(base, platform);
        lemma_layout_lengths(base, platform);
        lemma_nested_has_letters(base, platform, nested);
        assert(layout[nested] != lone);
        assert forall|i: int| 0 <= i < 4 implies raw[1 + i] == #[trigger] layout[i] by {
            assert(raw.subrange(1, 5)[i] == raw[1 + i]);
        }
        assert(raw[1 + flat] == layout[flat]);
        lemma_first_index(raw, layout[flat]);
        let first = first_index(raw, layout[flat]);
        assert(!raw.take(first).contains(layout[nested])) by {
            if raw.take(first).contains(layout[nested]) {
                let j = choose|j: int| 0 <= j < first && raw.take(first)[j] == layout[nested];
                if j >= 1 {
                    assert(raw[j] == layout[j - 1]);
                }
            }
        }
        lemma_flat_before_nested(raw, 1, base, platform, flat, nested);
    }
}

/// A nested layout ends in the letter `e`, so it is not made of separators
/// alone, and has a parent.
proof fn lemma_nested_has_letters(base: Seq<char>, platform: Platform, nested: int)
    requires
        2 <= nested < 4,
    ensures
        parent_spec(layout_candidates(base, platform)[nested], platform) is Some,
{
    reveal_strlit("runtime");
    let path = layout_candidates(base, platform)[nested];
    assert("runtime"@.len() == 7);
    assert("runtime"@[6] == 'e');
    assert(path.len() > 0);
    assert(path.last() == 'e');
    assert(!platform.is_separator_spec('e'));
    assert(crate::paths::strip_trailing_separators(path, platform) == path);
}

/// Where the updater's executable lies under `root`.
pub open spec fn updater_path(root: Seq<char>, platform: Platform) -> Seq<char> {
    join_spec(join_spec(root, "updater"@, platform), exe_name_spec("updater"@, platform), platform)
}

/// Where the batch worker's executable lies under `root`.
pub open spec fn batch_path(root: Seq<char>, platform: Platform) -> Seq<char> {
    join_spec(join_spec(root, "batch"@, platform), exe_name_spec("batch"@, platform), platform)
}

/// Where the built static entry page lies under `root`.
pub open spec fn index_path(root: Seq<char>, platform: Platform) -> Seq<char> {
    join_spec(
        join_spec(join_spec(root, "server"@, platform), "dist"@, platform),
        "index.html"@,
        platform,
    )
}

/// The three files that make a directory a runtime root.
pub open spec fn required_assets(root: Seq<char>, platform: Platform) -> Seq<Seq<char>> {
    seq![updater_path(root, platform), batch_path(root, platform), index_path(root, platform)]
}

/// Whether `root` holds the service bundle, going by the paths in `present`.
pub open spec fn root_accepted(root: Seq<char>, present: Set<Seq<char>>, platform: Platform) -> bool {
    &&& present.contains(updater_path(root, platform))
    &&& present.contains(batch_path(root, platform))
    &&& present.contains(index_path(root, platform))
}

/// A root is accepted exactly when all three required assets are present,
/// and taking any one of them away turns acceptance into rejection.
pub proof fn lemma_root_acceptance(
    root: Seq<char>,
    present: Set<Seq<char>>,
    platform: Platform,
    k: int,
)
    requires
        0 <= k < 3,
    ensures
        required_assets(root, platform).len() == 3,
        root_accepted(root, present, platform) <==> (forall|i: int|
            0 <= i < 3 ==> present.contains(#[trigger] required_assets(root, platform)[i])),
        !root_accepted(root, present.remove(required_assets(root, platform)[k]), platform),
{
    let assets = required_assets(root, platform);
    if forall|i: int| 0 <= i < 3 ==> present.contains(#[trigger] assets[i]) {
        assert(present.contains(assets[0]));
        assert(present.contains(assets[1]));
        assert(present.contains(assets[2]));
    }
}

/// Where the updater's executable lies under `root`.
pub fn updater_exe_path(root: &str, platform: Platform) -> (path: String)
    ensures
        path@ == updater_path(root@, platform),
{
    let dir = join(root, "updater", platform);
    let file = exe_name("updater", platform);
    join(dir.as_str(), file.as_str(), platform)
}

/// Where the batch worker's executable lies under `root`.
pub fn batch_exe_path(root: &str, platform: Platform) -> (path: String)
    ensures
        path@ == batch_path(root@, platform),
{
    let dir = join(root, "batch", platform);
    let file = exe_name("batch", platform);
    join(dir.as_str(), file.as_str(), platform)
}

/// Where the built static entry page lies under `root`.
pub fn index_html_path(root: &str, platform: Platform) -> (path: String)
    ensures
        path@ == index_path(root@, platform),
{
    let server = join(root, "server", platform);
    let dist = join(server.as_str(), "dist", platform);
    join(dist.as_str(), "index.html", platform)
}

/// Whether `root` holds the service bundle: the updater's executable, the
/// batch worker's executable and the built static entry page all exist.
pub fn is_runtime_root(root: &str, snapshot: &FileSnapshot, platform: Platform) -> (accepted: bool)
    ensures
        accepted == root_accepted(root@, snapshot@, platform),
{
    snapshot.holds(updater_exe_path(root, platform).as_str()) && snapshot.holds(
        batch_exe_path(root, platform).as_str(),
    ) && snapshot.holds(index_html_path(root, platform).as_str())
}

/// The first of `candidates` that is accepted as a runtime root.
pub open spec fn chosen_root(
    candidates: Seq<Seq<char>>,
    present: Set<Seq<char>>,
    platform: Platform,
) -> Option<Seq<char>>
    decreases candidates.len(),
{
    if candidates.len() == 0 {
        None
    } else if root_accepted(candidates[0], present, platform) {
        Some(candidates[0])
    } else {
        chosen_root(candidates.drop_first(), present, platform)
    }
}

/// The first candidate that holds the service bundle. Where none does, the
/// error lists every candidate, in the order tried.
pub fn resolve_runtime_root(
    candidates: &Vec<String>,
    snapshot: &FileSnapshot,
    platform: Platform,
) -> (found: Result<String, RuntimeError>)
    ensures
        match chosen_root(candidates.deep_view(), snapshot@, platform) {
            Some(root) => found is Ok && found->Ok_0@ == root,
            None => found is Err && found->Err_0@ == (RuntimeErrorView::RuntimeRootNotFound {
                checked: candidates.deep_view(),
            }),
        },
{
    let mut i: usize = 0;
    assert(candidates.deep_view().skip(0) == candidates.deep_view());
    while i < candidates.len()
        invariant
            i <= candidates.len(),
            chosen_root(candidates.deep_view().skip(i as int), snapshot@, platform) == chosen_root(
                candidates.deep_view(),
                snapshot@,
                platform,
            ),
        decreases candidates.len() - i,
    {
        assert(candidates.deep_view().skip(i as int)[0] == candidates[i as int]@);
        assert(candidates.deep_view().skip(i as int).drop_first() == candidates.deep_view().skip(
            i as int + 1,
        ));
        if is_runtime_root(candidates[i].as_str(), snapshot, platform) {
            return Ok(candidates[i].clone());
        }
        i = i + 1;
    }
    let checked = candidates.clone();
    assert(checked.deep_view() == candidates.deep_view());
    Err(RuntimeError::RuntimeRootNotFound { checked })
}

/// Succeeds where `path` exists; names it as missing where it does not.
pub fn ensure_exists(path: &str, snapshot: &FileSnapshot) -> (outcome: Result<(), RuntimeError>)
    ensures
        snapshot@.contains(path@) ==> outcome is Ok,
        !snapshot@.contains(path@) ==> outcome is Err && outcome->Err_0@
            == (RuntimeErrorView::MissingRuntimeAsset { launcher: None, paths: seq![path@] }),
{
    if snapshot.holds(path) {
        Ok(())
    } else {
        let mut paths: Vec<String> = Vec::new();
        paths.push(String::from_str(path));
        assert(paths.deep_view() == seq![path@]);
        Err(RuntimeError::MissingRuntimeAsset { launcher: None, paths })
    }
}

/// The paths whose existence decides which candidate is the runtime root:
/// the three required assets of each candidate, candidate by candidate.
pub open spec fn root_probe_paths(candidates: Seq<Seq<char>>, platform: Platform) -> Seq<Seq<char>>
    decreases candidates.len(),
{
    if candidates.len() == 0 {
        Seq::empty()
    } else {
        root_probe_paths(candidates.drop_last(), platform) + required_assets(
            candidates.last(),
            platform,
        )
    }
}

/// The paths that a driver has to look for before a root can be chosen.
pub fn runtime_root_probes(candidates: &Vec<String>, platform: Platform) -> (paths: Vec<String>)
    ensures
        paths.deep_view() == root_probe_paths(candidates.deep_view(), platform),
{
    let mut paths: Vec<String> = Vec::new();
    let mut i: usize = 0;
    assert(candidates.deep_view().take(0) == Seq::<Seq<char>>::empty());
    assert(paths.deep_view() == Seq::<Seq<char>>::empty());
    while i < candidates.len()
        invariant
            i <= candidates.len(),
            paths.deep_view() == root_probe_paths(candidates.deep_view().take(i as int), platform),
        decreases candidates.len() - i,
    {
        let ghost before = paths.deep_view();
        let ghost upto = candidates.deep_view().take(i as int + 1);
        assert(upto.drop_last() == candidates.deep_view().take(i as int));
        assert(upto.last() == candidates[i as int]@);
        paths.push(updater_exe_path(candidates[i].as_str(), platform));
        paths.push(batch_exe_path(candidates[i].as_str(), platform));
        paths.push(index_html_path(candidates[i].as_str(), platform));
        assert(paths.deep_view() == before + required_assets(candidates[i as int]@, platform));
        i = i + 1;
    }
    assert(candidates.deep_view().take(candidates.len() as int) == candidates.deep_view());
    paths
}

/// The probe paths hold every required asset of every candidate.
pub proof fn lemma_probes_cover_assets(
    candidates: Seq<Seq<char>>,
    platform: Platform,
    i: int,
    k: int,
)
    requires
        0 <= i < candidates.len(),
        0 <= k < 3,
    ensures
        root_probe_paths(candidates, platform).contains(
            required_assets(candidates[i], platform)[k],
        ),
    decreases candidates.len(),
{
    let before = root_probe_paths(candidates.drop_last(), platform);
    let last = required_assets(candidates.last(), platform);
    let all = root_probe_paths(candidates, platform);
    if i == candidates.len() - 1 {
        assert(all[before.len() + k] == last[k]);
    } else {
        lemma_probes_cover_assets(candidates.drop_last(), platform, i, k);
        let asset = required_assets(candidates[i], platform)[k];
        assert(candidates.drop_last()[i] == candidates[i]);
        let at = choose|at: int| 0 <= at < before.len() && before[at] == asset;
        assert(all[at] == asset);
    }
}

/// Two states of the disk that agree on the required assets of every
/// candidate lead to the same root.
pub proof fn lemma_chosen_root_reads_assets_only(
    candidates: Seq<Seq<char>>,
    one: Set<Seq<char>>,
    other: Set<Seq<char>>,
    platform: Platform,
)
    requires
        forall|i: int, k: int|
            0 <= i < candidates.len() && 0 <= k < 3 ==> one.contains(
                #[trigger] required_assets(candidates[i], platform)[k],
            ) == other.contains(required_assets(candidates[i], platform)[k]),
    ensures
        chosen_root(candidates, one, platform) == chosen_root(candidates, other, platform),
    decreases candidates.len(),
{
    if candidates.len() > 0 {
        let first = required_assets(candidates[0], platform);
        assert(one.contains(first[0]) == other.contains(first[0]));
        assert(one.contains(first[1]) == other.contains(first[1]));
        assert(one.contains(first[2]) == other.contains(first[2]));
        let rest = candidates.drop_first();
        assert forall|i: int, k: int| 0 <= i < rest.len() && 0 <= k < 3 implies one.contains(
            #[trigger] required_assets(rest[i], platform)[k],
        ) == other.contains(required_assets(rest[i], platform)[k]) by {
            assert(rest[i] == candidates[i + 1]);
            assert(one.contains(required_assets(candidates[i + 1], platform)[k]) == other.contains(
                required_assets(candidates[i + 1], platform)[k],
            ));
        }
        lemma_chosen_root_reads_assets_only(rest, one, other, platform);
    }
}

/// To choose the root it is enough to know which of the probe paths exist:
/// what else is on disk makes no difference.
pub proof fn lemma_root_probe_suffices(
    candidates: Seq<Seq<char>>,
    present: Set<Seq<char>>,
    platform: Platform,
)
    ensures
        chosen_root(
            candidates,
            present.intersect(root_probe_paths(candidates, platform).to_set()),
            platform,
        ) == chosen_root(candidates, present, platform),
{
    let asked = root_probe_paths(candidates, platform).to_set();
    assert forall|i: int, k: int| 0 <= i < candidates.len() && 0 <= k < 3 implies present.intersect(
        asked,
    ).contains(#[trigger] required_assets(candidates[i], platform)[k]) == present.contains(
        required_assets(candidates[i], platform)[k],
    ) by {
        lemma_probes_cover_assets(candidates, platform, i, k);
    }
    lemma_chosen_root_reads_assets_only(candidates, present.intersect(asked), present, platform);
}

/// The changelog directly in `dir` and the one in `dir/_up_`.
pub open spec fn changelog_beside(dir: Seq<char>, platform: Platform) -> Seq<Seq<char>> {
    seq![
        join_spec(dir, "CHANGELOG.json"@, platform),
        join_spec(join_spec(dir, "_up_"@, platform), "CHANGELOG.json"@, platform),
    ]
}

/// The changelogs beside `dir`, then those beside its parent.
pub open spec fn changelog_around(dir: Seq<char>, platform: Platform) -> Seq<Seq<char>> {
    changelog_beside(dir, platform) + match parent_spec(dir, platform) {
        Some(parent) => changelog_beside(parent, platform),
        None => Seq::empty(),
    }
}

/// Every place where the changelog may lie, repetitions included: in the
/// chosen root and in its parent, around the executable's directory, around
/// the platform's executable directory, then the bundled resource.
pub open spec fn raw_changelog_candidates(
    host: HostDirsView,
    root: Seq<char>,
    platform: Platform,
) -> Seq<Seq<char>> {
    let in_root = seq![join_spec(root, "CHANGELOG.json"@, platform)];
    let above_root = match parent_spec(root, platform) {
        Some(parent) => seq![join_spec(parent, "CHANGELOG.json"@, platform)],
        None => Seq::empty(),
    };
    let beside_exe = match host.current_exe {
        Some(exe) => match parent_spec(exe, platform) {
            Some(dir) => changelog_around(dir, platform),
            None => Seq::empty(),
        },
        None => Seq::empty(),
    };
    let beside_app = match host.executable_dir {
        Some(dir) => changelog_around(dir, platform),
        None => Seq::empty(),
    };
    let bundled = match host.resource_changelog {
        Some(path) => seq![path],
        None => Seq::empty(),
    };
    in_root + above_root + beside_exe + beside_app + bundled
}

/// The places where the changelog is looked for, in order, each once.
pub open spec fn changelog_candidates_spec(
    host: HostDirsView,
    root: Seq<char>,
    platform: Platform,
) -> Seq<Seq<char>> {
    without_repeats(raw_changelog_candidates(host, root, platform))
}

/// The first of `candidates` that is present.
pub open spec fn first_present(candidates: Seq<Seq<char>>, present: Set<Seq<char>>) -> Option<
    Seq<char>,
>
    decreases candidates.len(),
{
    if candidates.len() == 0 {
        None
    } else if present.contains(candidates[0]) {
        Some(candidates[0])
    } else {
        first_present(candidates.drop_first(), present)
    }
}

/// The changelog to use: the first candidate that exists; where none does,
/// the first candidate as a best guess.
pub open spec fn changelog_choice(candidates: Seq<Seq<char>>, present: Set<Seq<char>>) -> Seq<
    char,
> {
    match first_present(candidates, present) {
        Some(path) => path,
        None => if candidates.len() > 0 {
            candidates[0]
        } else {
            "CHANGELOG.json"@
        },
    }
}

/// Appends the changelog in `dir` and the one in `dir/_up_`.
fn push_changelog_beside(candidates: &mut Vec<String>, dir: &str, platform: Platform)
    ensures
        final(candidates).deep_view() == old(candidates).deep_view() + changelog_beside(
            dir@,
            platform,
        ),
{
    let up = join(dir, "_up_", platform);
    candidates.push(join(dir, "CHANGELOG.json", platform));
    candidates.push(join(up.as_str(), "CHANGELOG.json", platform));
}

/// Appends the changelogs beside `dir`, then those beside its parent.
fn push_changelog_around(candidates: &mut Vec<String>, dir: &str, platform: Platform)
    ensures
        final(candidates).deep_view() == old(candidates).deep_view() + changelog_around(
            dir@,
            platform,
        ),
{
    push_changelog_beside(candidates, dir, platform);
    match parent_dir(dir, platform) {
        Some(parent) => {
            push_changelog_beside(candidates, parent.as_str(), platform);
        },
        None => {
            assert(candidates.deep_view() == old(candidates).deep_view() + (changelog_beside(
                dir@,
                platform,
            ) + Seq::<Seq<char>>::empty()));
        },
    }
}

/// The places where the changelog is looked for, in order, each once.
pub fn changelog_candidates(host: &HostDirs, root: &str, platform: Platform) -> (candidates: Vec<
    String,
>)
    ensures
        candidates.deep_view() == changelog_candidates_spec(host@, root@, platform),
        candidates.len() > 0,
{
    let mut raw: Vec<String> = Vec::new();
    raw.push(join(root, "CHANGELOG.json", platform));
    let ghost in_root = seq![join_spec(root@, "CHANGELOG.json"@, platform)];
    assert(raw.deep_view() == in_root);
    match parent_dir(root, platform) {
        Some(parent) => {
            raw.push(join(parent.as_str(), "CHANGELOG.json", platform));
        },
        None => {},
    }
    let ghost above_root = match parent_spec(root@, platform) {
        Some(parent) => seq![join_spec(parent, "CHANGELOG.json"@, platform)],
        None => Seq::empty(),
    };
    assert(raw.deep_view() == in_root + above_root);
    match &host.current_exe {
        Some(exe) => match parent_dir(exe.as_str(), platform) {
            Some(dir) => {
                push_changelog_around(&mut raw, dir.as_str(), platform);
            },
            None => {},
        },
        None => {},
    }
    let ghost beside_exe = match host@.current_exe {
        Some(exe) => match parent_spec(exe, platform) {
            Some(dir) => changelog_around(dir, platform),
            None => Seq::empty(),
        },
        None => Seq::empty(),
    };
    assert(raw.deep_view() == in_root + above_root + beside_exe);
    match &host.executable_dir {
        Some(dir) => {
            push_changelog_around(&mut raw, dir.as_str(), platform);
        },
        None => {},
    }
    let ghost beside_app = match host@.executable_dir {
        Some(dir) => changelog_around(dir, platform),
        None => Seq::empty(),
    };
    assert(raw.deep_view() == in_root + above_root + beside_exe + beside_app);
    match &host.resource_changelog {
        Some(path) => {
            raw.push(path.clone());
        },
        None => {},
    }
    assert(raw.deep_view() == raw_changelog_candidates(host@, root@, platform));
    proof {
        lemma_without_repeats_same_items(raw.deep_view());
        assert(raw.deep_view().contains(raw.deep_view()[0]));
        let w = without_repeats(raw.deep_view());
        assert(w.contains(raw.deep_view()[0]));
    }
    dedup_paths(raw)
}

/// The changelog to use, chosen among `candidates` by what exists.
pub fn pick_changelog(candidates: &Vec<String>, snapshot: &FileSnapshot) -> (path: String)
    ensures
        path@ == changelog_choice(candidates.deep_view(), snapshot@),
{
    let mut i: usize = 0;
    assert(candidates.deep_view().skip(0) == candidates.deep_view());
    while i < candidates.len()
        invariant
            i <= candidates.len(),
            first_present(candidates.deep_view().skip(i as int), snapshot@) == first_present(
                candidates.deep_view(),
                snapshot@,
            ),
        decreases candidates.len() - i,
    {
        assert(candidates.deep_view().skip(i as int)[0] == candidates[i as int]@);
        assert(candidates.deep_view().skip(i as int).drop_first() == candidates.deep_view().skip(
            i as int + 1,
        ));
        if snapshot.holds(candidates[i].as_str()) {
            return candidates[i].clone();
        }
        i = i + 1;
    }
    if candidates.len() > 0 {
        candidates[0].clone()
    } else {
        String::from_str("CHANGELOG.json")
    }
}

/// The changelog that belongs to the bundle at `root`: the first place, in
/// the order of `changelog_candidates`, where one exists; the changelog in
/// `root` itself where none does.
pub fn resolve_changelog_path(
    host: &HostDirs,
    root: &str,
    snapshot: &FileSnapshot,
    platform: Platform,
) -> (path: String)
    ensures
        path@ == changelog_choice(changelog_candidates_spec(host@, root@, platform), snapshot@),
{
    let candidates = changelog_candidates(host, root, platform);
    pick_changelog(&candidates, snapshot)
}

} // verus!
