//! Reposting a message's content to the group wall: which pictures and videos go, under
//! what names, when the post is published, and what the post and the replies carry.

use vstd::prelude::*;

use crate::types::{
    is_largest_at, lemma_largest_unique, Forward, SendMessageRequest, VkMessageData,
    VkMessagesAttachment, VkPhoto, VkVideo, VkWallAttachment,
};

verus! {

/// The delay between two scheduled wall posts, in seconds.
pub const POST_INTERVAL: u64 = 3600;

/// One scheduling step: from the time of the last post `before` (zero before the first
/// post) and the time `now`, the recorded time becomes `after` and the post is published at
/// `r` (`None`: at once). The first post goes out at once and records `now`; each later
/// one is scheduled an hour after the one before.
pub open spec fn publish_step(before: u64, now: u64, after: u64, r: Option<u64>) -> bool {
    if before == 0 {
        r is None && after == now
    } else {
        after == before + POST_INTERVAL && r == Some(after)
    }
}

/// When the next wall post is published, given when the last one was (`last_date`, zero
/// before the first post) and the time now.
pub fn next_publish_date(last_date: &mut u64, now: u64) -> (r: Option<u64>)
    requires
        *old(last_date) == 0 || *old(last_date) + POST_INTERVAL <= u64::MAX,
    ensures
        publish_step(*old(last_date), now, *final(last_date), r),
{
    if *last_date == 0 {
        *last_date = now;
        None
    } else {
        *last_date = *last_date + POST_INTERVAL;
        Some(*last_date)
    }
}

/// The time recorded after the first `i` of a run of steps.
proof fn lemma_schedule_prefix(
    dates: Seq<u64>,
    nows: Seq<u64>,
    results: Seq<Option<u64>>,
    i: int,
)
    requires
        nows.len() >= 1,
        dates.len() == nows.len() + 1,
        results.len() == nows.len(),
        dates[0] == 0,
        nows[0] != 0,
        forall|j: int|
            #![trigger results[j]]
            0 <= j < nows.len() ==> publish_step(dates[j], nows[j], dates[j + 1], results[j]),
        1 <= i <= nows.len(),
    ensures
        dates[i] == nows[0] + POST_INTERVAL * (i - 1),
    decreases i,
{
    assert(publish_step(dates[i - 1], nows[i - 1], dates[i], results[i - 1]));
    if i > 1 {
        lemma_schedule_prefix(dates, nows, results, i - 1);
    }
}

/// The posting schedule: over any run of posts that starts with no post made
/// (`dates[0] == 0`), the first at a time `now` other than zero, the first post goes out at
/// once and the `i`-th (counting from one) is scheduled `i - 1` hours after `now`, whatever
/// the times of the later calls. `dates[i]` is the recorded time after `i` calls, `nows[i]`
/// and `results[i]` the time and the result of call `i + 1`.
pub proof fn lemma_posting_schedule(dates: Seq<u64>, nows: Seq<u64>, results: Seq<Option<u64>>)
    requires
        nows.len() >= 1,
        dates.len() == nows.len() + 1,
        results.len() == nows.len(),
        dates[0] == 0,
        nows[0] != 0,
        forall|j: int|
            #![trigger results[j]]
            0 <= j < nows.len() ==> publish_step(dates[j], nows[j], dates[j + 1], results[j]),
    ensures
        results[0] is None,
        forall|i: int|
            1 <= i <= nows.len() ==> #[trigger] dates[i] == nows[0] + POST_INTERVAL * (i - 1),
        forall|i: int|
            1 <= i < nows.len() ==> (#[trigger] results[i] matches Some(d) && d == nows[0]
                + POST_INTERVAL * i),
{
    assert(publish_step(dates[0], nows[0], dates[1], results[0]));
    assert forall|i: int| 1 <= i <= nows.len() implies #[trigger] dates[i] == nows[0]
        + POST_INTERVAL * (i - 1) by {
        lemma_schedule_prefix(dates, nows, results, i);
    }
    assert forall|i: int| 1 <= i < nows.len() implies (#[trigger] results[i] matches Some(d)
        && d == nows[0] + POST_INTERVAL * i) by {
        lemma_schedule_prefix(dates, nows, results, i);
        lemma_schedule_prefix(dates, nows, results, i + 1);
        assert(publish_step(dates[i], nows[i], dates[i + 1], results[i]));
    }
}

/// The parameters of `wall.post`.
#[derive(Debug)]
pub struct WallPostRequest {
    pub owner_id: i32,
    pub from_group: i8,
    pub message: String,
    pub attachments: Vec<String>,
    pub publish_date: Option<u64>,
}

/// The wall post that reposts a message to the group `group_id`: posted by the group on
/// its own wall, with the message's text and the attachments that were reuploaded or
/// attached. `None` when there is none: then nothing is posted.
pub fn wall_post_request(
    group_id: i32,
    message: String,
    attachments: Vec<String>,
    publish_date: Option<u64>,
) -> (r: Option<WallPostRequest>)
    requires
        group_id != i32::MIN,
    ensures
        r is None <==> attachments@.len() == 0,
        r matches Some(p) ==> {
            &&& p.owner_id == -group_id
            &&& p.from_group == 1
            &&& p.message == message
            &&& p.attachments == attachments
            &&& p.publish_date == publish_date
        },
{
    if attachments.len() == 0 {
        return None;
    }
    Some(WallPostRequest { owner_id: -group_id, from_group: 1, message, attachments, publish_date })
}

/// The address of the largest size of a photo.
pub open spec fn largest_url(photo: VkPhoto) -> Seq<char> {
    photo.sizes@[choose|i: int| is_largest_at(photo.sizes@, i)].url@
}

/// What an attachment brings to a repost, as the library sees it.
pub enum SourceView {
    /// A picture to download from this address and upload to the group's wall.
    Download(Seq<char>),
    /// An object that VK attaches as it is, by this attachment text.
    Attach(Seq<char>),
}

/// What an attachment brings to a repost.
#[derive(Debug, PartialEq, Eq)]
pub enum RepostSource {
    /// A picture to download from this address and upload to the group's wall.
    Download(String),
    /// An object that VK attaches as it is, by this attachment text.
    Attach(String),
}

impl View for RepostSource {
    type V = SourceView;

    open spec fn view(&self) -> SourceView {
        match self {
            RepostSource::Download(u) => SourceView::Download(u@),
            RepostSource::Attach(t) => SourceView::Attach(t@),
        }
    }
}

/// How a video is attached to a post: `video<owner id>_<video id>`, followed by
/// `_<access key>` where the video has one.
pub open spec fn video_attachment_text(video: VkVideo) -> Seq<char> {
    "video"@ + decimal(video.owner_id as int) + "_"@ + decimal(video.id as int) + if video.access_key@.len()
        > 0 {
        "_"@ + video.access_key@
    } else {
        Seq::empty()
    }
}

/// What a photo brings: its largest size, where it has a size.
pub open spec fn photo_sources(photo: VkPhoto) -> Seq<SourceView> {
    if photo.sizes@.len() > 0 {
        seq![SourceView::Download(largest_url(photo))]
    } else {
        Seq::empty()
    }
}

/// What an attachment of a reposted wall post brings: its photos and videos; the rest
/// (and wall posts within it) bring nothing.
pub open spec fn wall_attachment_sources(a: VkWallAttachment) -> Seq<SourceView> {
    match a {
        VkWallAttachment::Photo { photo } => photo_sources(photo),
        VkWallAttachment::Video { video } => seq![SourceView::Attach(video_attachment_text(video))],
        _ => Seq::empty(),
    }
}

/// What the attachments of a reposted wall post bring, in order.
pub open spec fn wall_sources(attachments: Seq<VkWallAttachment>) -> Seq<SourceView>
    decreases attachments.len(),
{
    if attachments.len() == 0 {
        Seq::empty()
    } else {
        wall_sources(attachments.drop_last()) + wall_attachment_sources(attachments.last())
    }
}

/// What an attachment of a message brings to a repost: a photo its largest size; a video
/// itself, attached by reference; a wall post its photos and videos; a story without video
/// the largest size of its photo. Audio records (which carry no owner to attach them by),
/// stories with video (which carry neither a picture nor a video id) and the other kinds
/// bring nothing.
pub open spec fn attachment_sources(a: VkMessagesAttachment) -> Seq<SourceView> {
    match a {
        VkMessagesAttachment::Photo { photo } => photo_sources(photo),
        VkMessagesAttachment::Video { video } => seq![
            SourceView::Attach(video_attachment_text(video)),
        ],
        VkMessagesAttachment::Wall { wall } => wall_sources(wall.attachments@),
        VkMessagesAttachment::Story { story } => match (story.video, story.photo) {
            (None, Some(photo)) => photo_sources(photo),
            _ => Seq::empty(),
        },
        _ => Seq::empty(),
    }
}

/// What the attachments of a message bring to a repost, in order.
pub open spec fn repost_sources(attachments: Seq<VkMessagesAttachment>) -> Seq<SourceView>
    decreases attachments.len(),
{
    if attachments.len() == 0 {
        Seq::empty()
    } else {
        repost_sources(attachments.drop_last()) + attachment_sources(attachments.last())
    }
}

/// How a video is attached to a post.
pub fn video_attachment(video: &VkVideo) -> (r: String)
    ensures
        r@ == video_attachment_text(*video),
        video.access_key@.len() == 0 ==> r@ == "video"@ + decimal(video.owner_id as int) + "_"@
            + decimal(video.id as int),
        video.access_key@.len() > 0 ==> r@ == "video"@ + decimal(video.owner_id as int) + "_"@
            + decimal(video.id as int) + "_"@ + video.access_key@,
{
    let mut s = String::from_str("video");
    let owner = i32_to_decimal(video.owner_id);
    s.append(owner.as_str());
    s.append("_");
    let id = i32_to_decimal(video.id);
    s.append(id.as_str());
    if video.access_key.as_str().is_empty() {
        assert(s@ + Seq::<char>::empty() =~= s@);
    } else {
        s.append("_");
        s.append(video.access_key.as_str());
        assert(s@ =~= "video"@ + decimal(video.owner_id as int) + "_"@ + decimal(video.id as int)
            + ("_"@ + video.access_key@));
    }
    s
}

/// Appends what a photo brings to `out`.
fn push_photo_sources(photo: &VkPhoto, out: &mut Vec<RepostSource>)
    ensures
        final(out)@.map_values(|s: RepostSource| s@) == old(out)@.map_values(
            |s: RepostSource| s@,
        ) + photo_sources(*photo),
{
    let ghost before = out@;
    if let Some(size) = photo.get_largest_size() {
        out.push(RepostSource::Download(size.url.clone()));
        proof {
            let k = choose|k: int| is_largest_at(photo.sizes@, k) && *size == #[trigger] photo.sizes@[k];
            let c = choose|c: int| is_largest_at(photo.sizes@, c);
            lemma_largest_unique(photo.sizes@, k, c);
            assert(out@.map_values(|s: RepostSource| s@) =~= before.map_values(
                |s: RepostSource| s@,
            ) + photo_sources(*photo));
        }
    } else {
        assert(out@.map_values(|s: RepostSource| s@) =~= before.map_values(|s: RepostSource| s@)
            + photo_sources(*photo));
    }
}

/// Appends what an attachment of a wall post brings to `out`.
fn push_wall_attachment_sources(a: &VkWallAttachment, out: &mut Vec<RepostSource>)
    ensures
        final(out)@.map_values(|s: RepostSource| s@) == old(out)@.map_values(
            |s: RepostSource| s@,
        ) + wall_attachment_sources(*a),
{
    let ghost before = out@;
    match a {
        VkWallAttachment::Photo { photo } => push_photo_sources(photo, out),
        VkWallAttachment::Video { video } => {
            out.push(RepostSource::Attach(video_attachment(video)));
            assert(out@.map_values(|s: RepostSource| s@) =~= before.map_values(
                |s: RepostSource| s@,
            ) + wall_attachment_sources(*a));
        },
        _ => {
            assert(out@.map_values(|s: RepostSource| s@) =~= before.map_values(
                |s: RepostSource| s@,
            ) + wall_attachment_sources(*a));
        },
    }
}

/// Appends what the attachments of a wall post bring to `out`.
fn push_wall_sources(attachments: &Vec<VkWallAttachment>, out: &mut Vec<RepostSource>)
    ensures
        final(out)@.map_values(|s: RepostSource| s@) == old(out)@.map_values(
            |s: RepostSource| s@,
        ) + wall_sources(attachments@),
{
    let ghost start = out@.map_values(|s: RepostSource| s@);
    let n = attachments.len();
    let mut i: usize = 0;
    assert(attachments@.take(0) =~= Seq::<VkWallAttachment>::empty());
    assert(start + wall_sources(attachments@.take(0)) =~= start);
    while i < n
        invariant
            n == attachments@.len(),
            i <= n,
            out@.map_values(|s: RepostSource| s@) == start + wall_sources(
                attachments@.take(i as int),
            ),
        decreases n - i,
    {
        let ghost prefix = attachments@.take(i + 1);
        assert(prefix.drop_last() =~= attachments@.take(i as int));
        assert(prefix.last() == attachments@[i as int]);
        push_wall_attachment_sources(&attachments[i], out);
        assert(start + wall_sources(attachments@.take(i as int)) + wall_attachment_sources(
            attachments@[i as int],
        ) =~= start + wall_sources(prefix));
        i = i + 1;
    }
    assert(attachments@.take(n as int) =~= attachments@);
}

/// Appends what an attachment of a message brings to `out`.
fn push_attachment_sources(a: &VkMessagesAttachment, out: &mut Vec<RepostSource>)
    ensures
        final(out)@.map_values(|s: RepostSource| s@) == old(out)@.map_values(
            |s: RepostSource| s@,
        ) + attachment_sources(*a),
{
    let ghost before = out@;
    match a {
        VkMessagesAttachment::Photo { photo } => push_photo_sources(photo, out),
        VkMessagesAttachment::Video { video } => {
            out.push(RepostSource::Attach(video_attachment(video)));
            assert(out@.map_values(|s: RepostSource| s@) =~= before.map_values(
                |s: RepostSource| s@,
            ) + attachment_sources(*a));
        },
        VkMessagesAttachment::Wall { wall } => push_wall_sources(&wall.attachments, out),
        VkMessagesAttachment::Story { story } => {
            match (&story.video, &story.photo) {
                (None, Some(photo)) => push_photo_sources(photo, out),
                _ => {
                    assert(out@.map_values(|s: RepostSource| s@) =~= before.map_values(
                        |s: RepostSource| s@,
                    ) + attachment_sources(*a));
                },
            }
        },
        _ => {
            assert(out@.map_values(|s: RepostSource| s@) =~= before.map_values(
                |s: RepostSource| s@,
            ) + attachment_sources(*a));
        },
    }
}

/// What the attachments of a message bring to a repost, in order.
pub fn repost_sources_of(attachments: &Vec<VkMessagesAttachment>) -> (r: Vec<RepostSource>)
    ensures
        r@.map_values(|s: RepostSource| s@) == repost_sources(attachments@),
{
    let mut r: Vec<RepostSource> = Vec::new();
    let n = attachments.len();
    let mut i: usize = 0;
    assert(attachments@.take(0) =~= Seq::<VkMessagesAttachment>::empty());
    assert(r@.map_values(|s: RepostSource| s@) =~= Seq::<SourceView>::empty());
    while i < n
        invariant
            n == attachments@.len(),
            i <= n,
            r@.map_values(|s: RepostSource| s@) == repost_sources(attachments@.take(i as int)),
        decreases n - i,
    {
        let ghost prefix = attachments@.take(i + 1);
        assert(prefix.drop_last() =~= attachments@.take(i as int));
        assert(prefix.last() == attachments@[i as int]);
        push_attachment_sources(&attachments[i], &mut r);
        i = i + 1;
    }
    assert(attachments@.take(n as int) =~= attachments@);
    r
}

/// The addresses that were reuploaded, in order, of the attempts made (`None` where an
/// attempt failed).
pub open spec fn successes(results: Seq<Option<String>>) -> Seq<Seq<char>>
    decreases results.len(),
{
    if results.len() == 0 {
        Seq::empty()
    } else {
        let rest = successes(results.drop_last());
        match results.last() {
            Some(s) => rest.push(s@),
            None => rest,
        }
    }
}

/// The attachments of a wall post: the reuploads that succeeded, in order.
pub fn uploaded_attachments(results: Vec<Option<String>>) -> (r: Vec<String>)
    ensures
        r@.map_values(|s: String| s@) == successes(results@),
{
    let mut r: Vec<String> = Vec::new();
    let n = results.len();
    let mut i: usize = 0;
    assert(results@.take(0) =~= Seq::<Option<String>>::empty());
    while i < n
        invariant
            n == results@.len(),
            i <= n,
            r@.map_values(|s: String| s@) == successes(results@.take(i as int)),
        decreases n - i,
    {
        let ghost prefix = results@.take(i + 1);
        assert(prefix.drop_last() =~= results@.take(i as int));
        assert(prefix.last() == results@[i as int]);
        let ghost before = r@;
        match &results[i] {
            Some(s) => {
                r.push(s.clone());
                assert(r@.map_values(|s: String| s@) =~= before.map_values(|s: String| s@).push(
                    results@[i as int]->0@,
                ));
            },
            None => {},
        }
        i = i + 1;
    }
    assert(results@.take(n as int) =~= results@);
    r
}

/// The character of a decimal digit.
pub open spec fn digit_char(d: int) -> char {
    seq!['0', '1', '2', '3', '4', '5', '6', '7', '8', '9'][d]
}

/// The decimal digits of a natural number, most significant first, without leading zeros.
pub open spec fn decimal_digits(n: nat) -> Seq<char>
    decreases n,
{
    if n < 10 {
        seq![digit_char(n as int)]
    } else {
        decimal_digits(n / 10).push(digit_char(n as int % 10))
    }
}

/// The decimal notation of an integer, with a leading `-` when it is negative.
pub open spec fn decimal(i: int) -> Seq<char> {
    if i < 0 {
        seq!['-'] + decimal_digits((-i) as nat)
    } else {
        decimal_digits(i as nat)
    }
}

/// The number that a sequence of decimal digits denotes.
pub open spec fn digits_value(s: Seq<char>) -> int
    decreases s.len(),
{
    if s.len() == 0 {
        0
    } else {
        digits_value(s.drop_last()) * 10 + (s.last() as int - '0' as int)
    }
}

/// The digit characters are `0` to `9`, in order.
proof fn lemma_digit_char(d: int)
    requires
        0 <= d < 10,
    ensures
        digit_char(d) as int - '0' as int == d,
{
    if d == 0 {
    } else if d == 1 {
    } else if d == 2 {
    } else if d == 3 {
    } else if d == 4 {
    } else if d == 5 {
    } else if d == 6 {
    } else if d == 7 {
    } else if d == 8 {
    } else {
    }
}

/// The decimal digits of `n` denote `n`, and begin with `0` only when `n` is zero.
pub proof fn lemma_decimal_digits_value(n: nat)
    ensures
        digits_value(decimal_digits(n)) == n,
        decimal_digits(n).len() > 0,
        decimal_digits(n)[0] == '0' ==> n == 0,
    decreases n,
{
    let d = n as int % 10;
    lemma_digit_char(d);
    if n >= 10 {
        lemma_decimal_digits_value(n / 10);
        let s = decimal_digits(n);
        assert(s.drop_last() =~= decimal_digits(n / 10));
        vstd::arithmetic::div_mod::lemma_fundamental_div_mod(n as int, 10);
        assert(s.last() == digit_char(d));
        assert(digits_value(s) == digits_value(s.drop_last()) * 10 + (s.last() as int - '0' as int));
        assert(digits_value(s) == (n / 10) as int * 10 + d);
        assert(s[0] == decimal_digits(n / 10)[0]);
    } else {
        let s = decimal_digits(n);
        assert(s.drop_last() =~= Seq::<char>::empty());
        assert(s.last() == digit_char(d));
        assert(d == n);
        assert(digits_value(s) == digits_value(s.drop_last()) * 10 + (s.last() as int - '0' as int));
    }
}

/// The decimal notation of an integer denotes it: a non-negative one by its digits, a
/// negative one by a `-` and the digits of its magnitude.
pub proof fn lemma_decimal_value(i: int)
    ensures
        i >= 0 ==> digits_value(decimal(i)) == i,
        i < 0 ==> decimal(i)[0] == '-' && digits_value(decimal(i).drop_first()) == -i,
{
    if i >= 0 {
        lemma_decimal_digits_value(i as nat);
    } else {
        lemma_decimal_digits_value((-i) as nat);
        assert(decimal(i).drop_first() =~= decimal_digits((-i) as nat));
    }
}

/// Appends the decimal digits of `n` to `s`.
fn append_digits(s: &mut String, n: u32)
    ensures
        final(s)@ == old(s)@ + decimal_digits(n as nat),
    decreases n,
{
    if n >= 10 {
        append_digits(s, n / 10);
    }
    let d = (n % 10) as usize;
    let digits = "0123456789";
    proof {
        reveal_strlit("0123456789");
        assert(digits@ =~= seq!['0', '1', '2', '3', '4', '5', '6', '7', '8', '9']);
    }
    let digit = digits.substring_char(d, d + 1);
    assert(digit@ =~= seq![digit_char(d as int)]);
    s.append(digit);
}

/// The decimal notation of `x`: its digits, most significant first, without leading zeros,
/// after a `-` when it is negative (as `i32::to_string` writes it).
pub fn i32_to_decimal(x: i32) -> (r: String)
    ensures
        r@ == decimal(x as int),
{
    let mut s = String::new();
    if x < 0 {
        let minus = "-";
        proof {
            reveal_strlit("-");
        }
        s.append(minus);
        let n = (0i64 - x as i64) as u32;
        append_digits(&mut s, n);
    } else {
        append_digits(&mut s, x as u32);
    }
    s
}

/// How a saved photo is attached to a post: `photo<owner id>_<photo id>`.
pub open spec fn photo_attachment_text(photo: VkPhoto) -> Seq<char> {
    "photo"@ + decimal(photo.owner_id as int) + "_"@ + decimal(photo.id as int)
}

/// How a saved photo is attached to a post.
pub fn photo_attachment(photo: &VkPhoto) -> (r: String)
    ensures
        r@ == photo_attachment_text(*photo),
        r@ == "photo"@ + decimal(photo.owner_id as int) + "_"@ + decimal(photo.id as int),
{
    let mut s = String::from_str("photo");
    let owner = i32_to_decimal(photo.owner_id);
    s.append(owner.as_str());
    s.append("_");
    let id = i32_to_decimal(photo.id);
    s.append(id.as_str());
    s
}

/// The name under which a downloaded picture is stored: the last segment of its address's
/// path, or `tmp.jpg` where there is none or it is empty.
pub fn download_file_name(last_segment: Option<&str>) -> (r: String)
    ensures
        r@ == match last_segment {
            Some(s) => if s@.len() > 0 {
                s@
            } else {
                "tmp.jpg"@
            },
            None => "tmp.jpg"@,
        },
{
    match last_segment {
        Some(s) => {
            if s.is_empty() {
                String::from_str("tmp.jpg")
            } else {
                String::from_str(s)
            }
        },
        None => String::from_str("tmp.jpg"),
    }
}

impl VkMessageData {
    /// What a reply to this message answers: this message of its conversation.
    pub fn reply_forward(&self) -> (r: Forward)
        ensures
            r.peer_id == self.peer_id,
            r.conversation_message_ids == self.conversation_message_id,
            r.is_reply == 1,
    {
        Forward::reply_to(self.peer_id, self.conversation_message_id)
    }
}

impl Forward {
    /// A reply to the message `conversation_message_ids` of the conversation `peer_id`.
    pub fn reply_to(peer_id: i32, conversation_message_ids: i32) -> (r: Forward)
        ensures
            r.peer_id == peer_id,
            r.conversation_message_ids == conversation_message_ids,
            r.is_reply == 1,
    {
        Forward { peer_id, conversation_message_ids, is_reply: 1 }
    }
}

impl SendMessageRequest {
    /// A message to the conversation `peer_id`.
    pub fn to_peer(peer_id: i32, message: String) -> (r: SendMessageRequest)
        ensures
            r.random_id == 0,
            r.peer_id == peer_id,
            r.message == message,
            r.forward is None,
    {
        SendMessageRequest { random_id: 0, peer_id, message, forward: None }
    }

    /// A reply in the conversation `peer_id`; `forward` is the JSON text of the
    /// [`Forward`] that names the message replied to.
    pub fn reply(peer_id: i32, message: String, forward: String) -> (r: SendMessageRequest)
        ensures
            r.random_id == 0,
            r.peer_id == peer_id,
            r.message == message,
            r.forward == Some(forward),
    {
        SendMessageRequest { random_id: 0, peer_id, message, forward: Some(forward) }
    }
}

} // verus!
