//! The sources a scene composes, in composition order, and how camera
//! sources are matched to the frames and identities discovery reports.
use vstd::prelude::*;

use crate::camera::{has_locator, CameraDevice};
use crate::text::{owned, push_str, str_chars, str_eq, string_from_chars};

verus! {

/// What produces a source's frames.
#[derive(Debug, Clone, Copy, PartialEq, Eq, Structural)]
pub enum SourceKind {
    Synthetic,
    Camera,
}

/// One source of a scene: its kind and the locator that finds it.
#[derive(Debug, Clone, PartialEq, Eq)]
pub struct SourceDescriptor {
    pub kind: SourceKind,
    pub locator: String,
}

/// The key prefix of a source kind.
pub open spec fn kind_prefix(kind: SourceKind) -> Seq<char> {
    match kind {
        SourceKind::Synthetic => "synthetic:"@,
        SourceKind::Camera => "camera:"@,
    }
}

/// The key a source is stored under: its kind, a colon, its locator.
pub open spec fn stable_key_of(kind: SourceKind, locator: Seq<char>) -> Seq<char> {
    kind_prefix(kind) + locator
}

impl SourceDescriptor {
    /// A camera source.
    pub fn camera(locator: &str) -> (d: Self)
        ensures
            d.kind == SourceKind::Camera,
            d.locator@ == locator@,
    {
        SourceDescriptor { kind: SourceKind::Camera, locator: owned(locator) }
    }

    /// A synthetic source.
    pub fn synthetic(locator: &str) -> (d: Self)
        ensures
            d.kind == SourceKind::Synthetic,
            d.locator@ == locator@,
    {
        SourceDescriptor { kind: SourceKind::Synthetic, locator: owned(locator) }
    }

    /// The key the source's transform and selection are stored under.
    pub fn stable_key(&self) -> (k: String)
        ensures
            k@ == stable_key_of(self.kind, self.locator@),
    {
        let mut out: Vec<char> = Vec::new();
        match self.kind {
            SourceKind::Synthetic => push_str(&mut out, "synthetic:"),
            SourceKind::Camera => push_str(&mut out, "camera:"),
        }
        push_str(&mut out, self.locator.as_str());
        string_from_chars(out.as_slice())
    }
}

/// A failed camera read fails the whole scene only when every source is a
/// camera and no camera delivered a frame.
pub open spec fn failure_is_scene_wide(sources: Seq<SourceDescriptor>, camera_frames_received: nat) -> bool {
    camera_frames_received == 0 && sources.len() > 0 && forall|i: int|
        0 <= i < sources.len() ==> (#[trigger] sources[i]).kind == SourceKind::Camera
}

/// Whether a camera failure should be reported as the scene's failure.
pub fn camera_failure_is_scene_wide(sources: &[SourceDescriptor], camera_frames_received: usize) -> (b:
    bool)
    ensures
        b == failure_is_scene_wide(sources@, camera_frames_received as nat),
{
    if camera_frames_received != 0 || sources.len() == 0 {
        return false;
    }
    let mut i: usize = 0;
    while i < sources.len()
        invariant
            i <= sources@.len(),
            forall|k: int| 0 <= k < i ==> (#[trigger] sources@[k]).kind == SourceKind::Camera,
        decreases sources@.len() - i,
    {
        if sources[i].kind != SourceKind::Camera {
            return false;
        }
        i = i + 1;
    }
    true
}

/// `j` is the first camera entry whose locator is `locator`.
pub open spec fn is_first_match<T>(cameras: Seq<(String, Option<T>)>, locator: Seq<char>, j: int) -> bool {
    &&& 0 <= j < cameras.len()
    &&& cameras[j].0@ == locator
    &&& forall|k: int| 0 <= k < j ==> (#[trigger] cameras[k]).0@ != locator
}

/// An earlier camera cell of the scene already used `locator`.
pub open spec fn camera_used_before(descriptors: Seq<SourceDescriptor>, i: int, locator: Seq<char>) -> bool {
    exists|k: int|
        0 <= k < i && (#[trigger] descriptors[k]).kind == SourceKind::Camera
            && descriptors[k].locator@ == locator
}

/// The frame of camera cell `i`: the first camera entry with its locator
/// hands its frame to the first cell that names it; later cells with the
/// same locator, and cells with no entry, stay empty.
pub open spec fn camera_cell<T>(
    descriptors: Seq<SourceDescriptor>,
    cameras: Seq<(String, Option<T>)>,
    i: int,
) -> Option<T> {
    let locator = descriptors[i].locator@;
    if camera_used_before(descriptors, i, locator) {
        None
    } else if exists|j: int| is_first_match(cameras, locator, j) {
        cameras[choose|j: int| is_first_match(cameras, locator, j)].1
    } else {
        None
    }
}

/// The entry `j` was handed out to one of the first `i` cells.
pub open spec fn taken_before<T>(
    descriptors: Seq<SourceDescriptor>,
    cameras: Seq<(String, Option<T>)>,
    i: int,
    j: int,
) -> bool {
    exists|k: int|
        0 <= k < i && (#[trigger] descriptors[k]).kind == SourceKind::Camera && is_first_match(
            cameras,
            descriptors[k].locator@,
            j,
        )
}

fn find_camera<T>(cameras: &Vec<(String, Option<T>)>, locator: &String) -> (r: Option<usize>)
    ensures
        match r {
            Some(j) => is_first_match(cameras@, locator@, j as int),
            None => forall|k: int| 0 <= k < cameras@.len() ==> (#[trigger] cameras@[k]).0@ != locator@,
        },
{
    let mut j: usize = 0;
    while j < cameras.len()
        invariant
            j <= cameras@.len(),
            forall|k: int| 0 <= k < j ==> (#[trigger] cameras@[k]).0@ != locator@,
        decreases cameras@.len() - j,
    {
        if str_eq(cameras[j].0.as_str(), locator.as_str()) {
            return Some(j);
        }
        j = j + 1;
    }
    None
}

proof fn lemma_first_match_unique<T>(cameras: Seq<(String, Option<T>)>, locator: Seq<char>, a: int, b: int)
    requires
        is_first_match(cameras, locator, a),
        is_first_match(cameras, locator, b),
    ensures
        a == b,
{
    if a < b {
        assert(cameras[a].0@ != locator);
    } else if b < a {
        assert(cameras[b].0@ != locator);
    }
}

/// Resolves the scene's sources, in composition order, into one frame slot
/// each: camera cells take the frames gathered for their locators, other
/// cells ask `synthetic_frame`. The first error of a synthetic source ends
/// the resolution.
pub fn resolve_ordered_sources<T, E>(
    descriptors: &[SourceDescriptor],
    cameras: Vec<(String, Option<T>)>,
    synthetic_frame: impl Fn(&String) -> Result<Option<T>, E>,
) -> (r: Result<Vec<Option<T>>, E>)
    requires
        forall|s: &String| synthetic_frame.requires((s,)),
    ensures
        match r {
            Ok(frames) => {
                &&& frames@.len() == descriptors@.len()
                &&& forall|i: int|
                    0 <= i < descriptors@.len() && descriptors@[i].kind == SourceKind::Camera
                        ==> #[trigger] frames@[i] == camera_cell(descriptors@, cameras@, i)
                &&& forall|i: int|
                    0 <= i < descriptors@.len() && descriptors@[i].kind == SourceKind::Synthetic
                        ==> synthetic_frame.ensures(
                        (&descriptors@[i].locator,),
                        Ok::<Option<T>, E>(#[trigger] frames@[i]),
                    )
            },
            Err(e) => exists|i: int|
                0 <= i < descriptors@.len() && (#[trigger] descriptors@[i]).kind
                    == SourceKind::Synthetic && synthetic_frame.ensures(
                    (&descriptors@[i].locator,),
                    Err::<Option<T>, E>(e),
                ) && forall|k: int|
                    0 <= k < i && (#[trigger] descriptors@[k]).kind == SourceKind::Synthetic
                        ==> exists|v: Option<T>|
                        #[trigger] synthetic_frame.ensures(
                            (&descriptors@[k].locator,),
                            Ok::<Option<T>, E>(v),
                        ),
        },
        (forall|k: int, res: Result<Option<T>, E>|
            0 <= k < descriptors@.len() && descriptors@[k].kind == SourceKind::Synthetic
                && #[trigger] synthetic_frame.ensures((&descriptors@[k].locator,), res) ==> res is Ok)
            ==> r is Ok,
{
    let ghost given = cameras@;
    let mut cameras = cameras;
    let mut frames: Vec<Option<T>> = Vec::new();
    let mut i: usize = 0;
    while i < descriptors.len()
        invariant
            i <= descriptors@.len(),
            forall|s: &String| synthetic_frame.requires((s,)),
            frames@.len() == i,
            cameras@.len() == given.len(),
            forall|j: int| 0 <= j < given.len() ==> (#[trigger] cameras@[j]).0 == given[j].0,
            forall|j: int|
                0 <= j < given.len() ==> (#[trigger] cameras@[j]).1 == (if taken_before(
                    descriptors@,
                    given,
                    i as int,
                    j,
                ) {
                    None
                } else {
                    given[j].1
                }),
            forall|k: int|
                0 <= k < i && descriptors@[k].kind == SourceKind::Camera ==> #[trigger] frames@[k]
                    == camera_cell(descriptors@, given, k),
            forall|k: int|
                0 <= k < i && descriptors@[k].kind == SourceKind::Synthetic
                    ==> synthetic_frame.ensures(
                    (&descriptors@[k].locator,),
                    Ok::<Option<T>, E>(#[trigger] frames@[k]),
                ),
        decreases descriptors@.len() - i,
    {
        let descriptor = &descriptors[i];
        match descriptor.kind {
            SourceKind::Synthetic => {
                match synthetic_frame(&descriptor.locator) {
                    Ok(frame) => {
                        frames.push(frame);
                    },
                    Err(e) => {
                        proof {
                            assert forall|k: int|
                                0 <= k < i && (#[trigger] descriptors@[k]).kind
                                    == SourceKind::Synthetic implies exists|v: Option<T>|
                                #[trigger] synthetic_frame.ensures(
                                    (&descriptors@[k].locator,),
                                    Ok::<Option<T>, E>(v),
                                ) by {
                                assert(synthetic_frame.ensures(
                                    (&descriptors@[k].locator,),
                                    Ok::<Option<T>, E>(frames@[k]),
                                ));
                            }
                        }
                        return Err(e);
                    },
                }
                proof {
                    assert forall|j: int| 0 <= j < given.len() implies taken_before(
                        descriptors@,
                        given,
                        i + 1,
                        j,
                    ) == taken_before(descriptors@, given, i as int, j) by {
                        if taken_before(descriptors@, given, i + 1, j) {
                            let k = choose|k: int|
                                0 <= k < i + 1 && (#[trigger] descriptors@[k]).kind
                                    == SourceKind::Camera && is_first_match(
                                    given,
                                    descriptors@[k].locator@,
                                    j,
                                );
                            assert(k != i);
                        }
                    }
                }
            },
            SourceKind::Camera => {
                let ghost locator = descriptor.locator@;
                let found = find_camera(&cameras, &descriptor.locator);
                match found {
                    Some(j) => {
                        assert(is_first_match(given, locator, j as int)) by {
                            assert forall|k: int| 0 <= k < j implies (#[trigger] given[k]).0@
                                != locator by {
                                assert(cameras@[k].0 == given[k].0);
                            }
                            assert(cameras@[j as int].0 == given[j as int].0);
                        }
                        let ghost before = cameras@;
                        let (name, frame) = cameras.remove(j);
                        cameras.insert(j, (name, None));
                        proof {
                            assert(cameras@ == before.update(j as int, (name, None::<T>)));
                            if camera_used_before(descriptors@, i as int, locator) {
                                let k = choose|k: int|
                                    0 <= k < i && (#[trigger] descriptors@[k]).kind
                                        == SourceKind::Camera && descriptors@[k].locator@
                                        == locator;
                                assert(taken_before(descriptors@, given, i as int, j as int));
                            } else {
                                assert(!taken_before(descriptors@, given, i as int, j as int))
                                    by {
                                    if taken_before(descriptors@, given, i as int, j as int) {
                                        let k = choose|k: int|
                                            0 <= k < i && (#[trigger] descriptors@[k]).kind
                                                == SourceKind::Camera && is_first_match(
                                                given,
                                                descriptors@[k].locator@,
                                                j as int,
                                            );
                                        assert(descriptors@[k].locator@ == locator);
                                    }
                                }
                                let c = choose|c: int| is_first_match(given, locator, c);
                                lemma_first_match_unique(given, locator, c, j as int);
                            }
                            assert forall|m: int| 0 <= m < given.len() implies taken_before(
                                descriptors@,
                                given,
                                i + 1,
                                m,
                            ) == (taken_before(descriptors@, given, i as int, m) || m == j) by {
                                if m == j {
                                    assert(descriptors@[i as int].kind == SourceKind::Camera);
                                    assert(is_first_match(given, descriptors@[i as int].locator@, m));
                                }
                                if taken_before(descriptors@, given, i + 1, m) && !taken_before(
                                    descriptors@,
                                    given,
                                    i as int,
                                    m,
                                ) {
                                    let k = choose|k: int|
                                        0 <= k < i + 1 && (#[trigger] descriptors@[k]).kind
                                            == SourceKind::Camera && is_first_match(
                                            given,
                                            descriptors@[k].locator@,
                                            m,
                                        );
                                    assert(k == i);
                                    lemma_first_match_unique(given, locator, m, j as int);
                                }
                            }
                        }
                        frames.push(frame);
                    },
                    None => {
                        proof {
                            assert(!(exists|c: int| is_first_match(given, locator, c))) by {
                                if exists|c: int| is_first_match(given, locator, c) {
                                    let c = choose|c: int| is_first_match(given, locator, c);
                                    assert(cameras@[c].0 == given[c].0);
                                }
                            }
                            assert forall|m: int| 0 <= m < given.len() implies taken_before(
                                descriptors@,
                                given,
                                i + 1,
                                m,
                            ) == taken_before(descriptors@, given, i as int, m) by {
                                if taken_before(descriptors@, given, i + 1, m) {
                                    let k = choose|k: int|
                                        0 <= k < i + 1 && (#[trigger] descriptors@[k]).kind
                                            == SourceKind::Camera && is_first_match(
                                            given,
                                            descriptors@[k].locator@,
                                            m,
                                        );
                                    if k == i {
                                        assert(is_first_match(given, locator, m));
                                    }
                                }
                            }
                        }
                        frames.push(None);
                    },
                }
            },
        }
        i = i + 1;
    }
    Ok(frames)
}

/// `device` lists `locator` among its aliases.
pub open spec fn has_alias(device: CameraDevice, locator: Seq<char>) -> bool {
    exists|i: int| 0 <= i < device.aliases@.len() && (#[trigger] device.aliases@[i])@ == locator
}

/// The id of the first device that lists `locator` as an alias.
pub open spec fn alias_target(devices: Seq<CameraDevice>, locator: Seq<char>) -> Option<Seq<char>>
    decreases devices.len(),
{
    if devices.len() == 0 {
        None
    } else if has_alias(devices[0], locator) {
        Some(devices[0].id@)
    } else {
        alias_target(devices.drop_first(), locator)
    }
}

/// A source as kind and locator.
pub open spec fn source_view(source: SourceDescriptor) -> (SourceKind, Seq<char>) {
    (source.kind, source.locator@)
}

/// A source after migration: a camera found under a legacy alias takes the
/// device's stable id.
pub open spec fn migrated(source: (SourceKind, Seq<char>), devices: Seq<CameraDevice>) -> (
    SourceKind,
    Seq<char>,
) {
    if source.0 == SourceKind::Camera {
        match alias_target(devices, source.1) {
            Some(id) => (SourceKind::Camera, id),
            None => source,
        }
    } else {
        source
    }
}

/// The first occurrence of every stable key, in order.
pub open spec fn first_of_each_key(sources: Seq<(SourceKind, Seq<char>)>) -> Seq<(SourceKind, Seq<char>)>
    decreases sources.len(),
{
    if sources.len() == 0 {
        sources
    } else {
        let kept = first_of_each_key(sources.drop_last());
        let last = sources.last();
        if exists|k: int|
            0 <= k < kept.len() && stable_key_of((#[trigger] kept[k]).0, kept[k].1)
                == stable_key_of(last.0, last.1) {
            kept
        } else {
            kept.push(last)
        }
    }
}

/// A keyed list holding an entry for `key`.
pub open spec fn has_key<V>(entries: Seq<(Seq<char>, V)>, key: Seq<char>) -> bool {
    exists|j: int| 0 <= j < entries.len() && (#[trigger] entries[j]).0 == key
}

/// `j` is the first entry with `key`.
pub open spec fn is_first_key<V>(entries: Seq<(Seq<char>, V)>, key: Seq<char>, j: int) -> bool {
    &&& 0 <= j < entries.len()
    &&& entries[j].0 == key
    &&& forall|k: int| 0 <= k < j ==> (#[trigger] entries[k]).0 != key
}

/// Transform entries and legacy-to-current key pairs while sources migrate.
pub struct MigrationState<T> {
    pub transforms: Seq<(Seq<char>, T)>,
    pub remapped: Seq<(Seq<char>, Seq<char>)>,
}

/// Moves the transform stored under `legacy` to `current` (unless one is
/// already stored there) and records the pair once.
pub open spec fn migrate_keys<T>(state: MigrationState<T>, legacy: Seq<char>, current: Seq<char>) -> MigrationState<T> {
    let transforms = if has_key(state.transforms, legacy) {
        let j = choose|j: int| is_first_key(state.transforms, legacy, j);
        let rest = state.transforms.remove(j);
        if has_key(rest, current) {
            rest
        } else {
            rest.push((current, state.transforms[j].1))
        }
    } else {
        state.transforms
    };
    let remapped = if has_key(state.remapped, legacy) {
        state.remapped
    } else {
        state.remapped.push((legacy, current))
    };
    MigrationState { transforms, remapped }
}

/// The state after migrating the first `n` sources.
pub open spec fn migrate_prefix<T>(
    sources: Seq<SourceDescriptor>,
    devices: Seq<CameraDevice>,
    initial: MigrationState<T>,
    n: nat,
) -> MigrationState<T>
    decreases n,
{
    if n == 0 {
        initial
    } else {
        let state = migrate_prefix(sources, devices, initial, (n - 1) as nat);
        let source = sources[n - 1];
        if source.kind == SourceKind::Camera && alias_target(devices, source.locator@) is Some {
            migrate_keys(
                state,
                stable_key_of(SourceKind::Camera, source.locator@),
                stable_key_of(SourceKind::Camera, alias_target(devices, source.locator@)->0),
            )
        } else {
            state
        }
    }
}

/// Keyed entries by key view.
pub open spec fn entry_views<T>(entries: Seq<(String, T)>) -> Seq<(Seq<char>, T)> {
    entries.map_values(|e: (String, T)| (e.0@, e.1))
}

/// Key pairs by view.
pub open spec fn pair_views(pairs: Seq<(String, String)>) -> Seq<(Seq<char>, Seq<char>)> {
    pairs.map_values(|e: (String, String)| (e.0@, e.1@))
}

fn device_has_alias(device: &CameraDevice, locator: &String) -> (b: bool)
    ensures
        b == has_alias(*device, locator@),
{
    let mut a: usize = 0;
    while a < device.aliases.len()
        invariant
            a <= device.aliases@.len(),
            forall|k: int| 0 <= k < a ==> (#[trigger] device.aliases@[k])@ != locator@,
        decreases device.aliases@.len() - a,
    {
        if str_eq(device.aliases[a].as_str(), locator.as_str()) {
            return true;
        }
        a = a + 1;
    }
    false
}

fn find_alias_target(devices: &[CameraDevice], locator: &String) -> (r: Option<String>)
    ensures
        match alias_target(devices@, locator@) {
            Some(id) => r matches Some(s) && s@ == id,
            None => r is None,
        },
{
    let mut d: usize = 0;
    assert(devices@.skip(0) =~= devices@);
    while d < devices.len()
        invariant
            d <= devices@.len(),
            alias_target(devices@, locator@) == alias_target(devices@.skip(d as int), locator@),
        decreases devices@.len() - d,
    {
        assert(devices@.skip(d as int).drop_first() =~= devices@.skip(d + 1));
        assert(devices@.skip(d as int)[0] == devices@[d as int]);
        if device_has_alias(&devices[d], locator) {
            return Some(owned(devices[d].id.as_str()));
        }
        d = d + 1;
    }
    None
}

fn contains_key(keys: &Vec<String>, key: &String) -> (b: bool)
    ensures
        b == exists|m: int| 0 <= m < keys@.len() && (#[trigger] keys@[m])@ == key@,
{
    let mut k: usize = 0;
    while k < keys.len()
        invariant
            k <= keys@.len(),
            forall|m: int| 0 <= m < k ==> (#[trigger] keys@[m])@ != key@,
        decreases keys@.len() - k,
    {
        if str_eq(keys[k].as_str(), key.as_str()) {
            return true;
        }
        k = k + 1;
    }
    false
}

fn first_key_index<T>(entries: &Vec<(String, T)>, key: &String) -> (r: Option<usize>)
    ensures
        match r {
            Some(j) => is_first_key(entry_views(entries@), key@, j as int),
            None => !has_key(entry_views(entries@), key@),
        },
{
    let ghost views = entry_views(entries@);
    let mut j: usize = 0;
    while j < entries.len()
        invariant
            j <= entries@.len(),
            views == entry_views(entries@),
            forall|k: int| 0 <= k < j ==> (#[trigger] views[k]).0 != key@,
        decreases entries@.len() - j,
    {
        if str_eq(entries[j].0.as_str(), key.as_str()) {
            return Some(j);
        }
        j = j + 1;
    }
    None
}

fn has_pair_key(pairs: &Vec<(String, String)>, key: &String) -> (b: bool)
    ensures
        b == has_key(pair_views(pairs@), key@),
{
    let ghost views = pair_views(pairs@);
    let mut j: usize = 0;
    while j < pairs.len()
        invariant
            j <= pairs@.len(),
            views == pair_views(pairs@),
            forall|k: int| 0 <= k < j ==> (#[trigger] views[k]).0 != key@,
        decreases pairs@.len() - j,
    {
        if str_eq(pairs[j].0.as_str(), key.as_str()) {
            assert(views[j as int].0 == key@);
            return true;
        }
        j = j + 1;
    }
    false
}

proof fn lemma_first_key_unique<V>(entries: Seq<(Seq<char>, V)>, key: Seq<char>, a: int, b: int)
    requires
        is_first_key(entries, key, a),
        is_first_key(entries, key, b),
    ensures
        a == b,
{
    if a < b {
        assert(entries[a].0 != key);
    } else if b < a {
        assert(entries[b].0 != key);
    }
}

/// Moves a transform from `legacy` to `current` and records the pair.
fn migrate_entry<T>(
    transforms: &mut Vec<(String, T)>,
    remapped: &mut Vec<(String, String)>,
    legacy: String,
    current: String,
)
    ensures
        (MigrationState { transforms: entry_views(final(transforms)@), remapped: pair_views(final(remapped)@) })
            == migrate_keys(
            MigrationState { transforms: entry_views(old(transforms)@), remapped: pair_views(old(remapped)@) },
            legacy@,
            current@,
        ),
{
    let ghost before = entry_views(transforms@);
    match first_key_index(transforms, &legacy) {
        Some(j) => {
            let (_, transform) = transforms.remove(j);
            let ghost rest = entry_views(transforms@);
            proof {
                assert(rest =~= before.remove(j as int));
                let c = choose|c: int| is_first_key(before, legacy@, c);
                lemma_first_key_unique(before, legacy@, c, j as int);
            }
            match first_key_index(transforms, &current) {
                Some(_) => {},
                None => {
                    let key = owned(current.as_str());
                    transforms.push((key, transform));
                    assert(entry_views(transforms@) =~= rest.push((current@, before[j as int].1)));
                },
            }
        },
        None => {},
    }
    if !has_pair_key(remapped, &legacy) {
        let ghost pairs = pair_views(remapped@);
        remapped.push((legacy, current));
        assert(pair_views(remapped@) =~= pairs.push((legacy@, current@)));
    }
}

fn copy_source(source: &SourceDescriptor) -> (c: SourceDescriptor)
    ensures
        source_view(c) == source_view(*source),
{
    SourceDescriptor { kind: source.kind, locator: owned(source.locator.as_str()) }
}

/// Migrates camera sources discovered under a legacy alias to their
/// device's stable id, carries their transforms to the new key (an
/// existing transform there wins), drops sources that became duplicates
/// and returns each legacy key with its current key.
pub fn remap_camera_aliases<T>(
    sources: &mut Vec<SourceDescriptor>,
    transforms: &mut Vec<(String, T)>,
    devices: &[CameraDevice],
) -> (remapped: Vec<(String, String)>)
    ensures
        final(sources)@.map_values(|s: SourceDescriptor| source_view(s)) == first_of_each_key(
            old(sources)@.map_values(|s: SourceDescriptor| migrated(source_view(s), devices@)),
        ),
        (MigrationState { transforms: entry_views(final(transforms)@), remapped: pair_views(remapped@) })
            == migrate_prefix(
            old(sources)@,
            devices@,
            MigrationState {
                transforms: entry_views(old(transforms)@),
                remapped: Seq::<(Seq<char>, Seq<char>)>::empty(),
            },
            old(sources)@.len(),
        ),
{
    let ghost given = sources@;
    let ghost initial = MigrationState {
        transforms: entry_views(transforms@),
        remapped: Seq::<(Seq<char>, Seq<char>)>::empty(),
    };
    let mut remapped: Vec<(String, String)> = Vec::new();
    let mut renamed: Vec<SourceDescriptor> = Vec::new();
    let mut i: usize = 0;
    assert(pair_views(remapped@) =~= Seq::<(Seq<char>, Seq<char>)>::empty());
    while i < sources.len()
        invariant
            i <= sources@.len(),
            sources@ == given,
            renamed@.len() == i,
            forall|k: int|
                0 <= k < i ==> source_view(#[trigger] renamed@[k]) == migrated(
                    source_view(given[k]),
                    devices@,
                ),
            (MigrationState { transforms: entry_views(transforms@), remapped: pair_views(remapped@) })
                == migrate_prefix(given, devices@, initial, i as nat),
        decreases sources@.len() - i,
    {
        let source = &sources[i];
        let mut handled = false;
        if source.kind == SourceKind::Camera {
            match find_alias_target(devices, &source.locator) {
                Some(id) => {
                    let legacy_key = source.stable_key();
                    let moved = SourceDescriptor { kind: SourceKind::Camera, locator: id };
                    let current_key = moved.stable_key();
                    migrate_entry(transforms, &mut remapped, legacy_key, current_key);
                    renamed.push(moved);
                    handled = true;
                },
                None => {},
            }
        }
        if !handled {
            renamed.push(copy_source(source));
        }
        i = i + 1;
    }
    let ghost migrated_views = given.map_values(
        |s: SourceDescriptor| migrated(source_view(s), devices@),
    );
    assert(renamed@.map_values(|s: SourceDescriptor| source_view(s)) =~= migrated_views);
    let mut kept: Vec<SourceDescriptor> = Vec::new();
    let mut keys: Vec<String> = Vec::new();
    let mut n: usize = 0;
    while n < renamed.len()
        invariant
            n <= renamed@.len(),
            renamed@.map_values(|s: SourceDescriptor| source_view(s)) == migrated_views,
            kept@.map_values(|s: SourceDescriptor| source_view(s)) == first_of_each_key(
                migrated_views.take(n as int),
            ),
            keys@.len() == kept@.len(),
            forall|k: int|
                0 <= k < keys@.len() ==> (#[trigger] keys@[k])@ == stable_key_of(
                    kept@[k].kind,
                    kept@[k].locator@,
                ),
        decreases renamed@.len() - n,
    {
        let ghost kept_views = kept@.map_values(|s: SourceDescriptor| source_view(s));
        let candidate = &renamed[n];
        let key = candidate.stable_key();
        let seen = contains_key(&keys, &key);
        proof {
            let prefix = migrated_views.take(n as int);
            assert(migrated_views.take(n + 1).drop_last() =~= prefix);
            assert(migrated_views.take(n + 1).last() == migrated_views[n as int]);
            assert(migrated_views[n as int] == source_view(renamed@[n as int]));
            if seen {
                let m = choose|m: int| 0 <= m < keys@.len() && (#[trigger] keys@[m])@ == key@;
                assert(kept_views[m] == source_view(kept@[m]));
            } else {
                assert forall|m: int| 0 <= m < kept_views.len() implies stable_key_of(
                    (#[trigger] kept_views[m]).0,
                    kept_views[m].1,
                ) != key@ by {
                    assert(kept_views[m] == source_view(kept@[m]));
                    assert(keys@[m]@ != key@);
                }
            }
        }
        if !seen {
            let copy = copy_source(candidate);
            kept.push(copy);
            keys.push(key);
            assert(kept@.map_values(|s: SourceDescriptor| source_view(s)) =~= kept_views.push(
                source_view(copy),
            ));
        }
        n = n + 1;
    }
    assert(migrated_views.take(renamed@.len() as int) =~= migrated_views);
    *sources = kept;
    remapped
}

/// After migration no two sources share a stable key.
pub proof fn law_migrated_sources_have_distinct_keys(sources: Seq<(SourceKind, Seq<char>)>)
    ensures
        forall|a: int, b: int|
            0 <= a < b < first_of_each_key(sources).len() ==> stable_key_of(
                (#[trigger] first_of_each_key(sources)[a]).0,
                first_of_each_key(sources)[a].1,
            ) != stable_key_of(
                (#[trigger] first_of_each_key(sources)[b]).0,
                first_of_each_key(sources)[b].1,
            ),
    decreases sources.len(),
{
    if sources.len() > 0 {
        law_migrated_sources_have_distinct_keys(sources.drop_last());
        let kept = first_of_each_key(sources.drop_last());
        let last = sources.last();
        let result = first_of_each_key(sources);
        if !(exists|k: int|
            0 <= k < kept.len() && stable_key_of((#[trigger] kept[k]).0, kept[k].1)
                == stable_key_of(last.0, last.1)) {
            assert(result == kept.push(last));
            assert forall|a: int, b: int| 0 <= a < b < result.len() implies stable_key_of(
                (#[trigger] result[a]).0,
                result[a].1,
            ) != stable_key_of((#[trigger] result[b]).0, result[b].1) by {
                if b == kept.len() {
                    assert(result[a] == kept[a]);
                } else {
                    assert(result[a] == kept[a] && result[b] == kept[b]);
                }
            }
        }
    }
}

} // verus!
