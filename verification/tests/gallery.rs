use stl_gallery::camera::View;
use stl_gallery::gallery::{
    channel_capacity, encoder_count, file_name, gallery_jobs, variants, Framing, Variant,
};
use stl_gallery::renderer::RenderMode;

fn variant(framing: Framing, mode: RenderMode) -> Variant {
    Variant { framing, mode }
}

#[test]
fn readme_example_file_names() {
    assert_eq!(file_name(View::Front, variant(Framing::Near, RenderMode::Plain)), "front.png");
    assert_eq!(file_name(View::Front, variant(Framing::Far, RenderMode::Plain)), "front_far.png");
    assert_eq!(
        file_name(View::IsoTopFrontRight, variant(Framing::Near, RenderMode::Edges)),
        "iso_top_front_right_edges.png"
    );
    assert_eq!(
        file_name(View::IsoBottomBackLeft, variant(Framing::Far, RenderMode::Edges)),
        "iso_bottom_back_left_far_edges.png"
    );
}

#[test]
fn suffixes_follow_naming_table() {
    let suffixes: Vec<&str> = variants().iter().map(|v| v.suffix()).collect();
    assert_eq!(suffixes, vec!["", "_far", "_edges", "_far_edges"]);
}

#[test]
fn gallery_has_56_distinct_images() {
    let jobs = gallery_jobs();
    assert_eq!(jobs.len(), 56);
    let mut names: Vec<&str> = jobs.iter().map(|j| j.file_name.as_str()).collect();
    names.sort();
    names.dedup();
    assert_eq!(names.len(), 56);
}

#[test]
fn gallery_order_is_view_major() {
    let jobs = gallery_jobs();
    assert_eq!(jobs[0].file_name, "front.png");
    assert_eq!(jobs[1].file_name, "front_far.png");
    assert_eq!(jobs[2].file_name, "front_edges.png");
    assert_eq!(jobs[3].file_name, "front_far_edges.png");
    assert_eq!(jobs[4].file_name, "back.png");
    assert_eq!(jobs[4].view, View::Back);
    assert_eq!(jobs[55].file_name, "iso_bottom_back_left_far_edges.png");
    assert_eq!(jobs[55].variant, variant(Framing::Far, RenderMode::Edges));
}

#[test]
fn encoder_count_defaults_and_overrides() {
    assert_eq!(encoder_count(Some(3), Some(16)), 3);
    assert_eq!(encoder_count(Some(0), None), 0);
    assert_eq!(encoder_count(None, Some(1)), 2);
    assert_eq!(encoder_count(None, Some(6)), 6);
    assert_eq!(encoder_count(None, Some(64)), 8);
    assert_eq!(encoder_count(None, None), 4);
}

#[test]
fn channel_holds_two_frames_per_worker() {
    assert_eq!(channel_capacity(4), 8);
    assert_eq!(channel_capacity(0), 0);
}
