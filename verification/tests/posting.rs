use p4nimau_rust::posting::{
    download_file_name, i32_to_decimal, next_publish_date, photo_attachment, repost_sources_of,
    uploaded_attachments, video_attachment, wall_post_request, RepostSource, POST_INTERVAL,
};
use p4nimau_rust::types::{
    Forward, SendMessageRequest, VkAudio, VkMessageData, VkMessagesAttachment, VkPhoto,
    VkPhotoSizes, VkStory, VkStoryVideo, VkVideo, VkWall, VkWallAttachment,
};

#[test]
fn first_post_now_then_hourly() {
    let mut last = 0u64;
    assert_eq!(next_publish_date(&mut last, 1_700_000_000), None);
    assert_eq!(last, 1_700_000_000);
    assert_eq!(next_publish_date(&mut last, 5), Some(1_700_003_600));
    assert_eq!(next_publish_date(&mut last, 5), Some(1_700_007_200));
    assert_eq!(POST_INTERVAL, 3600);
}

#[test]
fn wall_post_needs_a_picture() {
    assert!(wall_post_request(42, "text".to_string(), vec![], None).is_none());
    let post = wall_post_request(42, "text".to_string(), vec!["photo1_2".to_string()], Some(9))
        .unwrap();
    assert_eq!(post.owner_id, -42);
    assert_eq!(post.from_group, 1);
    assert_eq!(post.message, "text");
    assert_eq!(post.attachments, vec!["photo1_2".to_string()]);
    assert_eq!(post.publish_date, Some(9));
}

fn photo(id: i32, owner_id: i32, types: &[&str]) -> VkPhoto {
    VkPhoto {
        id,
        owner_id,
        user_id: None,
        sizes: types
            .iter()
            .map(|t| VkPhotoSizes {
                size_type: t.to_string(),
                url: format!("{}/{}", id, t),
                width: 1,
                height: 1,
            })
            .collect(),
        access_key: None,
    }
}

fn download(url: &str) -> RepostSource {
    RepostSource::Download(url.to_string())
}

fn attach(text: &str) -> RepostSource {
    RepostSource::Attach(text.to_string())
}

fn video(id: i32, owner_id: i32, access_key: &str) -> VkVideo {
    VkVideo { id, owner_id, title: "t".to_string(), access_key: access_key.to_string() }
}

#[test]
fn repost_takes_the_largest_size_of_each_photo() {
    let attachments = vec![
        VkMessagesAttachment::Photo { photo: photo(1, 5, &["s", "x", "o"]) },
        VkMessagesAttachment::Doc,
        VkMessagesAttachment::Photo { photo: photo(2, 5, &[]) },
        VkMessagesAttachment::Sticker,
        VkMessagesAttachment::Photo { photo: photo(3, 5, &["m", "z"]) },
    ];
    assert_eq!(repost_sources_of(&attachments), vec![download("1/x"), download("3/z")]);
    assert!(repost_sources_of(&vec![]).is_empty());
}

#[test]
fn repost_attaches_videos() {
    let attachments = vec![
        VkMessagesAttachment::Video { video: video(456239017, -1, "ab12") },
        VkMessagesAttachment::Video { video: video(7, 8, "") },
    ];
    assert_eq!(
        repost_sources_of(&attachments),
        vec![attach("video-1_456239017_ab12"), attach("video8_7")]
    );
    assert_eq!(video_attachment(&video(1, 2, "")), "video2_1");
}

#[test]
fn repost_takes_the_photos_and_videos_of_a_wall_post() {
    let inner = VkWall { id: 9, text: String::new(), attachments: vec![
        VkWallAttachment::Photo { photo: photo(8, 1, &["s"]) },
    ] };
    let wall = VkWall {
        id: 1,
        text: "post".to_string(),
        attachments: vec![
            VkWallAttachment::Photo { photo: photo(4, 1, &["y", "s"]) },
            VkWallAttachment::Poll,
            VkWallAttachment::Video { video: video(5, 6, "k") },
            VkWallAttachment::Wall { wall: inner },
            VkWallAttachment::Audio { audio: VkAudio { id: 1, url: "a".to_string() } },
        ],
    };
    let attachments = vec![VkMessagesAttachment::Wall { wall }];
    assert_eq!(repost_sources_of(&attachments), vec![download("4/y"), attach("video6_5_k")]);
}

#[test]
fn repost_of_stories_and_audio() {
    let photo_story = VkStory { id: 1, video: None, photo: Some(photo(6, 1, &["x", "m"])) };
    let video_story = VkStory {
        id: 2,
        video: Some(VkStoryVideo { files: vec![("mp4_720".to_string(), Some("u".to_string()))] }),
        photo: Some(photo(7, 1, &["x"])),
    };
    let attachments = vec![
        VkMessagesAttachment::Story { story: photo_story },
        VkMessagesAttachment::Story { story: video_story },
        VkMessagesAttachment::Audio { audio: VkAudio { id: 3, url: "a".to_string() } },
    ];
    assert_eq!(repost_sources_of(&attachments), vec![download("6/x")]);
}

#[test]
fn decimal_notation() {
    for x in [0, 7, 10, -1, 123456, i32::MAX, i32::MIN] {
        assert_eq!(i32_to_decimal(x), x.to_string());
    }
}

#[test]
fn schedule_over_many_posts() {
    let mut last = 0u64;
    let now = 1_000;
    assert_eq!(next_publish_date(&mut last, now), None);
    for i in 1..10u64 {
        assert_eq!(next_publish_date(&mut last, 999_999), Some(now + POST_INTERVAL * i));
        assert_eq!(last, now + POST_INTERVAL * i);
    }
}

#[test]
fn uploaded_keeps_the_successes_in_order() {
    let results = vec![Some("a".to_string()), None, Some("b".to_string()), None];
    assert_eq!(uploaded_attachments(results), vec!["a".to_string(), "b".to_string()]);
}

#[test]
fn photo_attachment_names() {
    assert_eq!(photo_attachment(&photo(457239017, -215879385, &[])), "photo-215879385_457239017");
    assert_eq!(photo_attachment(&photo(0, 7, &[])), "photo7_0");
    assert_eq!(photo_attachment(&photo(i32::MIN, i32::MAX, &[])), "photo2147483647_-2147483648");
}

#[test]
fn download_names() {
    assert_eq!(download_file_name(Some("pic.jpg")), "pic.jpg");
    assert_eq!(download_file_name(Some("")), "tmp.jpg");
    assert_eq!(download_file_name(None), "tmp.jpg");
}

#[test]
fn reply_requests() {
    let msg = VkMessageData {
        id: 1,
        conversation_message_id: 77,
        date: 0,
        peer_id: 2000000001,
        from_id: 5,
        text: String::new(),
        random_id: 0,
        attachments: vec![],
    };
    let f = msg.reply_forward();
    assert_eq!((f.peer_id, f.conversation_message_ids, f.is_reply), (2000000001, 77, 1));
    let g = Forward::reply_to(3, 4);
    assert_eq!((g.peer_id, g.conversation_message_ids, g.is_reply), (3, 4, 1));
    let r = SendMessageRequest::reply(3, "hi".to_string(), "{}".to_string());
    assert_eq!((r.random_id, r.peer_id, r.message.as_str()), (0, 3, "hi"));
    assert_eq!(r.forward, Some("{}".to_string()));
    let p = SendMessageRequest::to_peer(3, "yo".to_string());
    assert_eq!(p.forward, None);
}
