use p4nimau_rust::types::{VkPhoto, VkPhotoSizes, VkStory, VkStoryVideo};

fn size(t: &str, url: &str) -> VkPhotoSizes {
    VkPhotoSizes { size_type: t.to_string(), url: url.to_string(), width: 1, height: 1 }
}

fn photo(sizes: Vec<VkPhotoSizes>) -> VkPhoto {
    VkPhoto { id: 1, owner_id: 2, user_id: None, sizes, access_key: None }
}

#[test]
fn largest_size_is_the_greatest_letter() {
    // Letters compare alphabetically: `x` comes after `w`.
    let p = photo(vec![size("s", "s"), size("x", "x"), size("w", "w"), size("m", "m")]);
    assert_eq!(p.get_largest_size().unwrap().url, "x");
    let q = photo(vec![size("s", "s"), size("z", "z"), size("y", "y")]);
    assert_eq!(q.get_largest_size().unwrap().url, "z");
}

#[test]
fn cropped_sizes_rank_lowest() {
    let p = photo(vec![size("r", "r"), size("b", "b"), size("q", "q")]);
    assert_eq!(p.get_largest_size().unwrap().url, "b");
    let only_cropped = photo(vec![size("o", "o"), size("p", "p")]);
    assert_eq!(only_cropped.get_largest_size().unwrap().url, "p");
}

#[test]
fn equal_sizes_pick_the_last() {
    let p = photo(vec![size("x", "first"), size("s", "s"), size("x", "second")]);
    assert_eq!(p.get_largest_size().unwrap().url, "second");
}

#[test]
fn no_size_no_largest() {
    assert!(photo(vec![]).get_largest_size().is_none());
}

fn files(entries: &[(&str, Option<&str>)]) -> VkStoryVideo {
    VkStoryVideo {
        files: entries.iter().map(|(k, v)| (k.to_string(), v.map(|v| v.to_string()))).collect(),
    }
}

#[test]
fn story_video_prefers_720p() {
    let v = files(&[("failover_host", Some("host")), ("mp4_720", Some("u720"))]);
    assert_eq!(v.get_url(), "u720");
}

#[test]
fn story_video_falls_back_to_the_greatest_name() {
    let v = files(&[
        ("dash_sep", Some("dash")),
        ("failover_host", None),
        ("hls", Some("hls")),
        ("mp4_144", Some("u144")),
        ("mp4_480", Some("u480")),
        ("mp4_240", Some("u240")),
    ]);
    assert_eq!(v.get_url(), "u480");
}

#[test]
fn story_url_from_video_or_photo() {
    let with_video = VkStory {
        id: 1,
        video: Some(files(&[("mp4_720", Some("v"))])),
        photo: Some(photo(vec![size("x", "p")])),
    };
    assert_eq!(with_video.get_url(), Some("v".to_string()));
    let with_photo = VkStory { id: 2, video: None, photo: Some(photo(vec![size("x", "p")])) };
    assert_eq!(with_photo.get_url(), Some("p".to_string()));
    let photo_without_sizes = VkStory { id: 3, video: None, photo: Some(photo(vec![])) };
    assert_eq!(photo_without_sizes.get_url(), None);
    let empty = VkStory { id: 4, video: None, photo: None };
    assert_eq!(empty.get_url(), None);
}
