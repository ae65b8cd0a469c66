//! Where the application and the camera extension share frames: a fixed
//! file inside the signed App Group container.
use vstd::prelude::*;

use crate::error::CameraManError;
use crate::paths::{push_component, pushed};

verus! {

/// Directory inside the App Group container that holds the shared frames.
pub const SHARED_FRAME_DIRECTORY: &'static str = "CameraMan";

/// File name of the shared frame ring.
pub const SHARED_FRAME_FILENAME: &'static str = "frames-v5.mmap";

/// The shared frame file inside the container at `container`.
pub open spec fn shared_frame_path(container: Seq<char>) -> Seq<char> {
    pushed(pushed(container, SHARED_FRAME_DIRECTORY@), SHARED_FRAME_FILENAME@)
}

/// The shared frame file inside the container at `container`.
pub fn shared_frame_path_in(container: &str) -> (path: String)
    ensures
        path@ == shared_frame_path(container@),
{
    let directory = push_component(container, SHARED_FRAME_DIRECTORY);
    push_component(directory.as_str(), SHARED_FRAME_FILENAME)
}

/// The shared frame file for the bundle's App Group, if it names one.
/// `container_path` resolves the group's container; it is asked only when
/// there is a group, and its error is returned unchanged.
pub fn shared_frame_file_path<F: Fn(&String) -> Result<String, CameraManError>>(
    application_group: Option<String>,
    container_path: F,
) -> (r: Result<Option<String>, CameraManError>)
    requires
        application_group matches Some(g) ==> call_requires(container_path, (&g,)),
    ensures
        application_group is None ==> r == Ok::<Option<String>, CameraManError>(None),
        application_group matches Some(g) ==> exists|answer: Result<String, CameraManError>|
            {
                &&& call_ensures(container_path, (&g,), answer)
                &&& match answer {
                    Ok(container) => r matches Ok(Some(path)) && path@ == shared_frame_path(
                        container@,
                    ),
                    Err(e) => r == Err::<Option<String>, CameraManError>(e),
                }
            },
{
    match application_group {
        None => Ok(None),
        Some(group) => {
            let answer = container_path(&group);
            match answer {
                Ok(container) => Ok(Some(shared_frame_path_in(container.as_str()))),
                Err(e) => Err(e),
            }
        },
    }
}

} // verus!
