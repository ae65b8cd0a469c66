//! One round of reading the selected cameras: each camera's frame cell, its
//! consecutive-failure streak, and what the round announces. A failing
//! camera degrades to an empty cell; only an all-camera scene with no
//! healthy camera turns a failure into the scene's error.
use vstd::prelude::*;

use crate::camera::{camera_locators_match, locators_match, CameraDevice};
use crate::error::{error_code, CameraManError, CaptureErrorKind, ErrorCode};
use crate::scene_sources::{
    camera_failure_is_scene_wide, failure_is_scene_wide, SourceDescriptor, SourceKind,
};
use crate::text::{push_str, string_from_chars};

verus! {

/// What reading one selected camera produced: nothing when no capture runs
/// for it, otherwise the read's outcome and the camera's failure streak so
/// far. `name` is how messages refer to the camera.
#[derive(Debug)]
pub struct CameraRead<T> {
    pub name: String,
    pub source: Option<(Result<Option<T>, CameraManError>, u32)>,
}

/// The outcome of one round.
#[derive(Debug)]
pub struct CameraRound<T> {
    /// The frame cell of each camera, in selection order.
    pub frames: Vec<Option<T>>,
    /// Each running camera's new failure streak.
    pub streaks: Vec<Option<u32>>,
    /// Cameras that delivered a frame.
    pub frames_received: usize,
    /// Cameras that delivered a frame after failing before.
    pub recovered: usize,
    /// Some read timed out: the camera is not responding.
    pub camera_not_responding: bool,
    /// The failure reported as the scene's error, when the scene cannot go
    /// on without its cameras.
    pub scene_error: Option<String>,
    /// One message per camera that started failing this round, when the
    /// scene keeps rendering.
    pub new_failures: Vec<String>,
}

/// The operation a camera's failure message names.
pub open spec fn read_operation(name: Seq<char>) -> Seq<char> {
    "Read camera "@ + name
}

/// The actionable message of `error` for `operation`.
pub open spec fn actionable_text(error: CameraManError, operation: Seq<char>) -> Seq<char> {
    operation + " failed. "@ + crate::error::cause_text(error_code(error)) + " "@
        + crate::error::recovery_text(error_code(error))
}

/// The cell a read fills.
pub open spec fn cell_of<T>(read: CameraRead<T>) -> Option<T> {
    match read.source {
        Some((Ok(frame), _)) => frame,
        _ => None,
    }
}

/// The camera's streak after the read: a read that returns clears it, a
/// failure extends it.
pub open spec fn streak_after<T>(read: CameraRead<T>) -> Option<u32> {
    match read.source {
        None => None,
        Some((Ok(_), _)) => Some(0u32),
        Some((Err(_), streak)) => Some(
            if streak == u32::MAX {
                streak
            } else {
                (streak + 1) as u32
            },
        ),
    }
}

/// The read delivered a frame.
pub open spec fn delivered<T>(read: CameraRead<T>) -> bool {
    read.source matches Some((Ok(Some(_)), _))
}

/// The read failed.
pub open spec fn failed<T>(read: CameraRead<T>) -> bool {
    read.source matches Some((Err(_), _))
}

/// The read delivered a frame after earlier failures.
pub open spec fn recovered_by<T>(read: CameraRead<T>) -> bool {
    read.source matches Some((Ok(Some(_)), streak)) && streak > 0
}

/// The read timed out.
pub open spec fn timed_out<T>(read: CameraRead<T>) -> bool {
    read.source matches Some((Err(e), _)) && error_code(e) == ErrorCode::Capture(
        CaptureErrorKind::Timeout,
    )
}

/// The read failed with the camera's first failure.
pub open spec fn first_failure<T>(read: CameraRead<T>) -> bool {
    read.source matches Some((Err(_), streak)) && streak == 0
}

/// Reads among the first `n` that satisfy `p`.
pub open spec fn count_where<T>(reads: Seq<CameraRead<T>>, n: nat, p: spec_fn(CameraRead<T>) -> bool) -> nat
    decreases n,
{
    if n == 0 {
        0
    } else {
        count_where(reads, (n - 1) as nat, p) + if p(reads[n - 1]) {
            1nat
        } else {
            0nat
        }
    }
}

/// The first read that failed.
pub open spec fn first_failed<T>(reads: Seq<CameraRead<T>>) -> Option<int> {
    if exists|i: int| 0 <= i < reads.len() && failed(#[trigger] reads[i]) {
        Some(choose|i: int| 0 <= i < reads.len() && failed(#[trigger] reads[i]) && forall|k: int|
            0 <= k < i ==> !failed(#[trigger] reads[k]))
    } else {
        None
    }
}

/// The messages of the first failures among the first `n` reads, in order.
pub open spec fn first_failure_texts<T>(reads: Seq<CameraRead<T>>, n: nat) -> Seq<Seq<char>>
    decreases n,
{
    if n == 0 {
        Seq::empty()
    } else {
        let before = first_failure_texts(reads, (n - 1) as nat);
        match reads[n - 1].source {
            Some((Err(e), streak)) => if streak == 0 {
                before.push(actionable_text(e, read_operation(reads[n - 1].name@)))
            } else {
                before
            },
            _ => before,
        }
    }
}

fn failure_message(error: &CameraManError, name: &String) -> (m: String)
    ensures
        m@ == actionable_text(*error, read_operation(name@)),
{
    let mut operation: Vec<char> = Vec::new();
    push_str(&mut operation, "Read camera ");
    push_str(&mut operation, name.as_str());
    let operation = string_from_chars(operation.as_slice());
    error.actionable_message(operation.as_str())
}

/// Judges one round of camera reads for a scene of `descriptors`.
pub fn judge_camera_round<T>(reads: Vec<CameraRead<T>>, descriptors: &[SourceDescriptor]) -> (r:
    CameraRound<T>)
    ensures
        r.frames@.len() == reads@.len(),
        r.streaks@.len() == reads@.len(),
        forall|i: int| 0 <= i < reads@.len() ==> #[trigger] r.frames@[i] == cell_of(reads@[i]),
        forall|i: int| 0 <= i < reads@.len() ==> #[trigger] r.streaks@[i] == streak_after(reads@[i]),
        r.frames_received == count_where(reads@, reads@.len(), |x: CameraRead<T>| delivered(x)),
        r.recovered == count_where(reads@, reads@.len(), |x: CameraRead<T>| recovered_by(x)),
        r.camera_not_responding == exists|i: int|
            0 <= i < reads@.len() && timed_out(#[trigger] reads@[i]),
        match first_failed(reads@) {
            Some(i) => if failure_is_scene_wide(descriptors@, r.frames_received as nat) {
                &&& r.scene_error matches Some(m) && reads@[i].source matches Some((Err(e), _))
                    && m@ == actionable_text(e, read_operation(reads@[i].name@))
                &&& r.new_failures@.len() == 0
            } else {
                &&& r.scene_error is None
                &&& r.new_failures@.map_values(|m: String| m@) == first_failure_texts(
                    reads@,
                    reads@.len(),
                )
            },
            None => r.scene_error is None && r.new_failures@.len() == 0,
        },
{
    let ghost all = reads@;
    let n = reads.len();
    let mut reads = reads;
    let mut frames: Vec<Option<T>> = Vec::new();
    let mut streaks: Vec<Option<u32>> = Vec::new();
    let mut frames_received: usize = 0;
    let mut recovered: usize = 0;
    let mut not_responding = false;
    let mut first_error: Option<String> = None;
    let ghost mut first_index: int = -1;
    let mut messages: Vec<String> = Vec::new();
    let mut i: usize = 0;
    while i < n
        invariant
            i <= n,
            n == all.len(),
            reads@.len() == n - i,
            forall|k: int| 0 <= k < n - i ==> #[trigger] reads@[k] == all[k + i],
            frames@.len() == i,
            streaks@.len() == i,
            forall|k: int| 0 <= k < i ==> #[trigger] frames@[k] == cell_of(all[k]),
            forall|k: int| 0 <= k < i ==> #[trigger] streaks@[k] == streak_after(all[k]),
            frames_received == count_where(all, i as nat, |x: CameraRead<T>| delivered(x)),
            recovered == count_where(all, i as nat, |x: CameraRead<T>| recovered_by(x)),
            frames_received <= i,
            recovered <= i,
            not_responding == exists|k: int| 0 <= k < i && timed_out(#[trigger] all[k]),
            first_error is None ==> forall|k: int| 0 <= k < i ==> !failed(#[trigger] all[k]),
            first_error is Some ==> {
                &&& 0 <= first_index < i
                &&& failed(all[first_index])
                &&& forall|k: int| 0 <= k < first_index ==> !failed(#[trigger] all[k])
                &&& first_error matches Some(m) && all[first_index].source matches Some((Err(e), _))
                    && m@ == actionable_text(e, read_operation(all[first_index].name@))
            },
            messages@.map_values(|m: String| m@) == first_failure_texts(all, i as nat),
        decreases n - i,
    {
        let read = reads.remove(0);
        assert(read == all[i as int]);
        let ghost before_messages = messages@.map_values(|m: String| m@);
        let CameraRead { name, source } = read;
        match source {
            None => {
                frames.push(None);
                streaks.push(None);
            },
            Some((Ok(frame), streak)) => {
                if frame.is_some() {
                    frames_received = frames_received + 1;
                    if streak > 0 {
                        recovered = recovered + 1;
                    }
                }
                frames.push(frame);
                streaks.push(Some(0));
            },
            Some((Err(error), streak)) => {
                let timeout = match error.code() {
                    ErrorCode::Capture(CaptureErrorKind::Timeout) => true,
                    _ => false,
                };
                if timeout {
                    not_responding = true;
                }
                if streak == 0 {
                    messages.push(failure_message(&error, &name));
                }
                if first_error.is_none() {
                    first_error = Some(failure_message(&error, &name));
                    proof {
                        first_index = i as int;
                    }
                }
                frames.push(None);
                streaks.push(Some(streak.saturating_add(1)));
            },
        }
        proof {
            assert(messages@.map_values(|m: String| m@) =~= first_failure_texts(all, (i + 1) as nat));
        }
        i = i + 1;
        proof {
            assert forall|k: int| 0 <= k < n - i implies #[trigger] reads@[k] == all[k + i] by {}
        }
    }
    let scene_wide = camera_failure_is_scene_wide(descriptors, frames_received);
    proof {
        if first_error is Some {
            assert(first_failed(all) == Some(first_index)) by {
                let j = choose|j: int| 0 <= j < all.len() && failed(#[trigger] all[j]) && forall|k: int|
                    0 <= k < j ==> !failed(#[trigger] all[k]);
                assert(failed(all[first_index]));
                if j < first_index {
                    assert(!failed(all[j]));
                } else if j > first_index {
                    assert(!failed(all[first_index]));
                }
            }
        } else {
            assert(first_failed(all) is None);
        }
    }
    let (scene_error, new_failures) = match first_error {
        Some(message) => if scene_wide {
            (Some(message), Vec::new())
        } else {
            (None, messages)
        },
        None => {
            proof {
                assert(messages@.map_values(|m: String| m@).len() == 0) by {
                    lemma_no_failure_no_texts(all, n as nat);
                }
            }
            (None, Vec::new())
        },
    };
    CameraRound {
        frames,
        streaks,
        frames_received,
        recovered,
        camera_not_responding: not_responding,
        scene_error,
        new_failures,
    }
}

proof fn lemma_no_failure_no_texts<T>(reads: Seq<CameraRead<T>>, n: nat)
    requires
        n <= reads.len(),
        forall|k: int| 0 <= k < n ==> !failed(#[trigger] reads[k]),
    ensures
        first_failure_texts(reads, n).len() == 0,
    decreases n,
{
    if n > 0 {
        lemma_no_failure_no_texts(reads, (n - 1) as nat);
        assert(!failed(reads[n - 1]));
    }
}

/// Some locator of `ids` names the same camera as `id`.
pub open spec fn matches_any(id: Seq<char>, ids: Seq<Seq<char>>, devices: Seq<CameraDevice>) -> bool {
    exists|j: int| 0 <= j < ids.len() && locators_match(id, #[trigger] ids[j], devices)
}

/// The texts of a list of ids.
pub open spec fn id_seq(ids: Seq<String>) -> Seq<Seq<char>> {
    ids.map_values(|id: String| id@)
}

/// The captures to start for the first `n` selected cameras, given the
/// running captures that stay: a selected camera gets one unless a running
/// or just-started capture already serves it.
pub open spec fn captures_to_start(
    kept: Seq<Seq<char>>,
    selected: Seq<Seq<char>>,
    devices: Seq<CameraDevice>,
    n: nat,
) -> Seq<Seq<char>>
    decreases n,
{
    if n == 0 {
        Seq::empty()
    } else {
        let before = captures_to_start(kept, selected, devices, (n - 1) as nat);
        let id = selected[n - 1];
        if matches_any(id, kept, devices) || matches_any(id, before, devices) {
            before
        } else {
            before.push(id)
        }
    }
}

/// Which running captures stay selected and which selected cameras need a
/// capture started.
#[derive(Debug)]
pub struct CaptureReconciliation {
    /// For each running capture, whether a selected camera still uses it.
    pub keep: Vec<bool>,
    /// The cameras to start capturing, in selection order.
    pub start: Vec<String>,
}

fn any_match(id: &str, ids: &Vec<String>, devices: &[CameraDevice]) -> (b: bool)
    ensures
        b == matches_any(id@, id_seq(ids@), devices@),
{
    let mut j: usize = 0;
    while j < ids.len()
        invariant
            j <= ids@.len(),
            forall|k: int| 0 <= k < j ==> !locators_match(id@, #[trigger] id_seq(ids@)[k], devices@),
        decreases ids@.len() - j,
    {
        if camera_locators_match(id, ids[j].as_str(), devices) {
            assert(locators_match(id@, id_seq(ids@)[j as int], devices@));
            return true;
        }
        j = j + 1;
    }
    false
}

/// Releases the captures of cameras no longer selected and, when opening is
/// allowed, starts one for every selected camera that has none. Cameras are
/// never opened as a side effect of a selection change alone.
pub fn reconcile_captures(
    running: &Vec<String>,
    selected: &Vec<String>,
    devices: &[CameraDevice],
    allow_open: bool,
) -> (r: CaptureReconciliation)
    ensures
        r.keep@.len() == running@.len(),
        forall|i: int|
            0 <= i < running@.len() ==> #[trigger] r.keep@[i] == matches_any(
                running@[i]@,
                id_seq(selected@),
                devices@,
            ),
        !allow_open ==> r.start@.len() == 0,
        allow_open ==> id_seq(r.start@) == captures_to_start(
            id_seq(running@).filter(|id: Seq<char>| matches_any(id, id_seq(selected@), devices@)),
            id_seq(selected@),
            devices@,
            selected@.len(),
        ),
{
    let mut keep: Vec<bool> = Vec::new();
    let mut kept: Vec<String> = Vec::new();
    let ghost sel = id_seq(selected@);
    let ghost pred = |id: Seq<char>| matches_any(id, sel, devices@);
    let mut i: usize = 0;
    while i < running.len()
        invariant
            i <= running@.len(),
            sel == id_seq(selected@),
            pred == (|id: Seq<char>| matches_any(id, sel, devices@)),
            keep@.len() == i,
            forall|k: int| 0 <= k < i ==> #[trigger] keep@[k] == matches_any(running@[k]@, sel, devices@),
            id_seq(kept@) == id_seq(running@).take(i as int).filter(pred),
        decreases running@.len() - i,
    {
        let stays = any_match(running[i].as_str(), selected, devices);
        keep.push(stays);
        let ghost before = kept@;
        proof {
            reveal(Seq::filter);
            assert(id_seq(running@).take(i + 1).drop_last() =~= id_seq(running@).take(i as int));
        }
        if stays {
            kept.push(running[i].clone());
            assert(id_seq(kept@) =~= id_seq(before).push(running@[i as int]@));
        } else {
            assert(id_seq(kept@) =~= id_seq(before));
        }
        i = i + 1;
    }
    assert(id_seq(running@).take(running@.len() as int) =~= id_seq(running@));
    let mut start: Vec<String> = Vec::new();
    if allow_open {
        let mut j: usize = 0;
        while j < selected.len()
            invariant
                j <= selected@.len(),
                sel == id_seq(selected@),
                id_seq(start@) == captures_to_start(id_seq(kept@), sel, devices@, j as nat),
            decreases selected@.len() - j,
        {
            let id = selected[j].as_str();
            assert(id@ == sel[j as int]);
            let ghost before = start@;
            if !any_match(id, &kept, devices) && !any_match(id, &start, devices) {
                start.push(selected[j].clone());
                assert(id_seq(start@) =~= id_seq(before).push(id@));
            }
            j = j + 1;
        }
    }
    CaptureReconciliation { keep, start }
}

/// How a retried camera restarts.
#[derive(Debug)]
pub struct RetryPlan {
    /// The running capture being replaced, if any: the first one serving
    /// the camera. Its stall carries over to the replacement.
    pub previous: Option<usize>,
    /// For each running capture, whether it is released.
    pub release: Vec<bool>,
    /// The locator the replacement opens: the replaced capture's own
    /// locator, so it waits on the same device lease, or the camera's id.
    pub reopen_id: String,
    /// A replacement is started: the app is running and the camera is in
    /// the scene.
    pub restart: bool,
}

/// Plans the retry of camera `id`: every running capture serving it is
/// released, and while running a replacement opens through the first
/// released capture's locator.
pub fn plan_retry(
    running: &Vec<String>,
    id: &str,
    devices: &[CameraDevice],
    app_running: bool,
    scene: &[SourceDescriptor],
) -> (plan: RetryPlan)
    ensures
        plan.release@.len() == running@.len(),
        forall|i: int|
            0 <= i < running@.len() ==> #[trigger] plan.release@[i] == locators_match(
                running@[i]@,
                id@,
                devices@,
            ),
        match plan.previous {
            Some(p) => p < running@.len() && locators_match(running@[p as int]@, id@, devices@)
                && (forall|k: int|
                0 <= k < p ==> !locators_match(#[trigger] running@[k]@, id@, devices@))
                && plan.reopen_id@ == running@[p as int]@,
            None => (forall|k: int|
                0 <= k < running@.len() ==> !locators_match(#[trigger] running@[k]@, id@, devices@))
                && plan.reopen_id@ == id@,
        },
        plan.restart == (app_running && exists|k: int|
            0 <= k < scene@.len() && (#[trigger] scene@[k]).kind == SourceKind::Camera
                && scene@[k].locator@ == id@),
{
    let mut release: Vec<bool> = Vec::new();
    let mut previous: Option<usize> = None;
    let mut i: usize = 0;
    while i < running.len()
        invariant
            i <= running@.len(),
            release@.len() == i,
            forall|k: int|
                0 <= k < i ==> #[trigger] release@[k] == locators_match(running@[k]@, id@, devices@),
            match previous {
                Some(p) => p < i && locators_match(running@[p as int]@, id@, devices@) && (forall|
                    k: int,
                |
                    0 <= k < p ==> !locators_match(#[trigger] running@[k]@, id@, devices@)),
                None => forall|k: int|
                    0 <= k < i ==> !locators_match(#[trigger] running@[k]@, id@, devices@),
            },
        decreases running@.len() - i,
    {
        let serves = camera_locators_match(running[i].as_str(), id, devices);
        release.push(serves);
        if serves && previous.is_none() {
            previous = Some(i);
        }
        i = i + 1;
    }
    let reopen_id = match previous {
        Some(p) => running[p].clone(),
        None => crate::text::owned(id),
    };
    let mut in_scene = false;
    let mut k: usize = 0;
    while k < scene.len()
        invariant
            k <= scene@.len(),
            in_scene == exists|m: int|
                0 <= m < k && (#[trigger] scene@[m]).kind == SourceKind::Camera
                    && scene@[m].locator@ == id@,
        decreases scene@.len() - k,
    {
        if scene[k].kind == SourceKind::Camera && crate::text::str_eq(scene[k].locator.as_str(), id) {
            in_scene = true;
        }
        k = k + 1;
    }
    RetryPlan { previous, release, reopen_id, restart: app_running && in_scene }
}

} // verus!
