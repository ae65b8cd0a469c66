use vstd::prelude::*;

pub mod app_group;
pub mod atomic_file;
pub mod backpressure;
pub mod benchmark_environment;
pub mod benchmarking;
pub mod benchmark_reports;
pub mod benchmark_series;
pub mod bundle_info;
pub mod camera;
pub mod camera_reads;
pub mod capture;
pub mod capture_worker;
pub mod client_authorization;
pub mod config;
pub mod diagnostics;
pub mod error;
pub mod frame;
pub mod format_negotiation;
pub mod frame_export;
pub mod frame_integrity;
pub mod frame_pump;
pub mod media_contract;
pub mod media_time;
pub mod output_stream;
pub mod paths;
pub mod pixel_writer;
pub mod preferences;
pub mod release;
pub mod scene_history;
pub mod scene_render;
pub mod scene_sources;
pub mod soak;
pub mod source_frames;
pub mod source_health;
pub mod summary_arguments;
pub mod text;
pub mod ui_layout;
pub mod workflow;

verus! {

} // verus!
