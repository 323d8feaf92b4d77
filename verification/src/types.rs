//! The VK API objects that the bot reads and writes, and the choices made on them.

use vstd::prelude::*;

use crate::text::{
    chars_eq, chars_lt, chars_of, occurs_at, has_substring, has_substring_exec, lemma_lex_asymmetric,
    lemma_lex_irreflexive, lemma_lex_total, lemma_lex_transitive, lex_lt,
};

verus! {

/// A new message event's payload.
#[derive(Debug)]
pub struct VkMessage {
    pub message: VkMessageData,
}

/// A message of a conversation.
#[derive(Debug)]
pub struct VkMessageData {
    pub id: i32,
    pub conversation_message_id: i32,
    pub date: u64,
    pub peer_id: i32,
    pub from_id: i32,
    pub text: String,
    pub random_id: i32,
    pub attachments: Vec<VkMessagesAttachment>,
}

/// An attachment of a message.
#[derive(Debug)]
pub enum VkMessagesAttachment {
    Photo { photo: VkPhoto },
    Audio { audio: VkAudio },
    Video { video: VkVideo },
    Wall { wall: VkWall },
    Story { story: VkStory },
    Doc,
    Link,
    Market,
    MarketAlbum,
    WallReply,
    Sticker,
    Gift,
}

/// A story: a video or a photo.
#[derive(Debug)]
pub struct VkStory {
    pub id: i32,
    pub video: Option<VkStoryVideo>,
    pub photo: Option<VkPhoto>,
}

/// The video of a story: its files, each a name (such as `mp4_720`) and, where the
/// file's entry is a string, that string (the file's address). Names are unique.
#[derive(Debug)]
pub struct VkStoryVideo {
    pub files: Vec<(String, Option<String>)>,
}

/// An attachment of a wall post.
#[derive(Debug)]
pub enum VkWallAttachment {
    Photo { photo: VkPhoto },
    Audio { audio: VkAudio },
    Video { video: VkVideo },
    Wall { wall: VkWall },
    Doc,
    Market,
    PostedPhoto,
    Graffiti,
    Link,
    Note,
    App,
    Poll,
    Page,
    Album,
    PhotosList,
    MarketAlbum,
    Sticker,
    PrettyCards,
    Event,
}

/// A photo, with the sizes in which it can be fetched.
#[derive(Debug)]
pub struct VkPhoto {
    pub id: i32,
    pub owner_id: i32,
    pub user_id: Option<i32>,
    pub sizes: Vec<VkPhotoSizes>,
    pub access_key: Option<String>,
}

/// One size of a photo: its size type (a letter such as `s`, `m`, `x`, `y`, `z`, `w`;
/// `o`, `p`, `q`, `r` are cropped copies), its address and its dimensions.
#[derive(Debug)]
pub struct VkPhotoSizes {
    pub size_type: String,
    pub url: String,
    pub width: i32,
    pub height: i32,
}

/// An audio record.
#[derive(Debug)]
pub struct VkAudio {
    pub id: i32,
    pub url: String,
}

/// A video.
#[derive(Debug)]
pub struct VkVideo {
    pub id: i32,
    pub owner_id: i32,
    pub title: String,
    pub access_key: String,
}

/// A wall post.
#[derive(Debug)]
pub struct VkWall {
    pub id: i32,
    pub text: String,
    pub attachments: Vec<VkWallAttachment>,
}

/// A conversation.
#[derive(Debug)]
pub struct Conversation {
    pub chat_settings: Option<ChatSettings>,
    pub peer: Peer,
}

/// The peer of a conversation.
#[derive(Debug)]
pub struct Peer {
    pub id: i32,
    pub local_id: i32,
}

/// The settings of a group chat.
#[derive(Debug)]
pub struct ChatSettings {
    pub title: Option<String>,
}

/// The parameters of `messages.send`.
#[derive(Debug)]
pub struct SendMessageRequest {
    pub random_id: i32,
    pub peer_id: i32,
    pub message: String,
    pub forward: Option<String>,
}

/// What a sent message answers: a message of a conversation.
#[derive(Debug)]
pub struct Forward {
    pub peer_id: i32,
    pub conversation_message_ids: i32,
    pub is_reply: i32,
}

/// The answer to `messages.send`.
#[derive(Debug)]
pub struct SendMessageResponse {
    pub _peer_id: i32,
    pub _message_id: i32,
}

/// Where and how to listen for the group's events (the answer to
/// `groups.getLongPollServer`).
#[derive(Debug)]
pub struct LongPollServer {
    pub key: String,
    pub server: String,
    pub ts: String,
}

/// A user profile.
#[derive(Debug)]
pub struct Profile {
    pub id: i32,
    pub first_name: String,
    pub last_name: String,
}

/// The size types of cropped copies: a size type that occurs in this text ranks lowest.
pub open spec fn cropped_types() -> Seq<char> {
    seq!['o', 'p', 'q', 'r']
}

/// The rank of a size type: cropped types rank as `a`, below every size letter; the others
/// rank as themselves. Ranks are compared lexicographically.
pub open spec fn size_rank(size_type: Seq<char>) -> Seq<char> {
    if has_substring(cropped_types(), size_type) {
        seq!['a']
    } else {
        size_type
    }
}

/// `sizes[i]` has the highest rank, and every later size ranks strictly lower: the size
/// that `Iterator::max_by_key` picks, which is the last of equally ranked maxima.
pub open spec fn is_largest_at(sizes: Seq<VkPhotoSizes>, i: int) -> bool {
    &&& 0 <= i < sizes.len()
    &&& forall|j: int|
        0 <= j < sizes.len() ==> !lex_lt(
            size_rank(sizes[i].size_type@),
            #[trigger] size_rank(sizes[j].size_type@),
        )
    &&& forall|j: int|
        i < j < sizes.len() ==> lex_lt(
            #[trigger] size_rank(sizes[j].size_type@),
            size_rank(sizes[i].size_type@),
        )
}

/// The cropped types `o`, `p`, `q`, `r` rank as `a`; every other one-letter type ranks as
/// itself.
pub proof fn lemma_one_letter_ranks(t: char)
    ensures
        size_rank(seq![t]) == if t == 'o' || t == 'p' || t == 'q' || t == 'r' {
            seq!['a']
        } else {
            seq![t]
        },
{
    let c = cropped_types();
    if t == 'o' || t == 'p' || t == 'q' || t == 'r' {
        let i: int = if t == 'o' {
            0
        } else if t == 'p' {
            1
        } else if t == 'q' {
            2
        } else {
            3
        };
        assert(c.subrange(i, i + 1) =~= seq![t]);
        assert(occurs_at(c, seq![t], i));
    } else {
        assert forall|i: int| !#[trigger] occurs_at(c, seq![t], i) by {
            if occurs_at(c, seq![t], i) {
                assert(c.subrange(i, i + 1)[0] == seq![t][0]);
            }
        }
    }
}

/// At most one size is the largest.
pub proof fn lemma_largest_unique(sizes: Seq<VkPhotoSizes>, i: int, k: int)
    requires
        is_largest_at(sizes, i),
        is_largest_at(sizes, k),
    ensures
        i == k,
{
    if i < k {
        assert(lex_lt(size_rank(sizes[k].size_type@), size_rank(sizes[i].size_type@)));
    } else if k < i {
        assert(lex_lt(size_rank(sizes[i].size_type@), size_rank(sizes[k].size_type@)));
    }
}

/// The rank of a size type, as characters.
fn size_rank_exec(size_type: &String) -> (r: Vec<char>)
    ensures
        r@ == size_rank(size_type@),
{
    let cropped = vec!['o', 'p', 'q', 'r'];
    assert(cropped@ =~= cropped_types());
    let t = chars_of(size_type.as_str());
    if has_substring_exec(&cropped, &t) {
        let a = vec!['a'];
        assert(a@ =~= seq!['a']);
        a
    } else {
        t
    }
}

impl VkPhoto {
    /// The largest size of the photo, cropped copies counting as the smallest; of equally
    /// large sizes the last. `None` when the photo lists no size.
    pub fn get_largest_size(&self) -> (r: Option<&VkPhotoSizes>)
        ensures
            r is None <==> self.sizes@.len() == 0,
            r matches Some(s) ==> exists|i: int|
                is_largest_at(self.sizes@, i) && *s == #[trigger] self.sizes@[i],
    {
        let n = self.sizes.len();
        if n == 0 {
            return None;
        }
        let mut best: usize = 0;
        let mut best_rank = size_rank_exec(&self.sizes[0].size_type);
        let mut i: usize = 1;
        proof {
            lemma_lex_irreflexive(best_rank@);
        }
        while i < n
            invariant
                n == self.sizes@.len(),
                0 <= best < i <= n,
                best_rank@ == size_rank(self.sizes@[best as int].size_type@),
                forall|j: int|
                    0 <= j < i ==> !lex_lt(
                        size_rank(self.sizes@[best as int].size_type@),
                        #[trigger] size_rank(self.sizes@[j].size_type@),
                    ),
                forall|j: int|
                    best < j < i ==> lex_lt(
                        #[trigger] size_rank(self.sizes@[j].size_type@),
                        size_rank(self.sizes@[best as int].size_type@),
                    ),
            decreases n - i,
        {
            let rank = size_rank_exec(&self.sizes[i].size_type);
            proof {
                lemma_lex_irreflexive(best_rank@);
                lemma_lex_irreflexive(rank@);
                lemma_lex_asymmetric(rank@, best_rank@);
                lemma_lex_total(rank@, best_rank@);
            }
            if !chars_lt(&rank, &best_rank) {
                proof {
                    assert forall|j: int| 0 <= j < i + 1 implies !lex_lt(
                        rank@,
                        #[trigger] size_rank(self.sizes@[j].size_type@),
                    ) by {
                        let kj = size_rank(self.sizes@[j].size_type@);
                        lemma_lex_transitive(best_rank@, rank@, kj);
                    }
                }
                best = i;
                best_rank = rank;
            }
            i = i + 1;
        }
        let r = &self.sizes[best];
        assert(is_largest_at(self.sizes@, best as int));
        Some(r)
    }
}

/// The name of the 720p MP4 file of a story video.
pub open spec fn mp4_720() -> Seq<char> {
    seq!['m', 'p', '4', '_', '7', '2', '0']
}

/// No two files of a story video have the same name.
pub open spec fn names_unique(files: Seq<(String, Option<String>)>) -> bool {
    forall|i: int, j: int|
        0 <= i < files.len() && 0 <= j < files.len() && i != j ==> #[trigger] files[i].0@
            != #[trigger] files[j].0@
}

/// `files[i]` is named `name`.
pub open spec fn named_at(files: Seq<(String, Option<String>)>, name: Seq<char>, i: int) -> bool {
    0 <= i < files.len() && files[i].0@ == name
}

/// `files[i]` has the greatest name.
pub open spec fn greatest_name_at(files: Seq<(String, Option<String>)>, i: int) -> bool {
    &&& 0 <= i < files.len()
    &&& forall|j: int|
        0 <= j < files.len() && j != i ==> lex_lt(#[trigger] files[j].0@, files[i].0@)
}

/// `files[i]` is the file a story video is shown by: the 720p MP4 file where there is one,
/// else the file with the greatest name (the best quality among names such as `mp4_480`).
pub open spec fn chosen_file_at(files: Seq<(String, Option<String>)>, i: int) -> bool {
    if exists|j: int| #[trigger] named_at(files, mp4_720(), j) {
        named_at(files, mp4_720(), i)
    } else {
        greatest_name_at(files, i)
    }
}

/// Of unique names, one at most is the greatest.
pub proof fn lemma_greatest_name_unique(files: Seq<(String, Option<String>)>, i: int, k: int)
    requires
        greatest_name_at(files, i),
        greatest_name_at(files, k),
    ensures
        i == k,
{
    if i != k {
        assert(lex_lt(files[k].0@, files[i].0@));
        assert(lex_lt(files[i].0@, files[k].0@));
        lemma_lex_asymmetric(files[k].0@, files[i].0@);
    }
}

/// Of unique names, one file at most is the chosen one.
pub proof fn lemma_chosen_file_unique(files: Seq<(String, Option<String>)>, i: int, k: int)
    requires
        names_unique(files),
        chosen_file_at(files, i),
        chosen_file_at(files, k),
    ensures
        i == k,
{
    if exists|j: int| #[trigger] named_at(files, mp4_720(), j) {
        if i != k {
            assert(files[i].0@ == files[k].0@);
        }
    } else {
        lemma_greatest_name_unique(files, i, k);
    }
}

/// Where a file is named `mp4_720`, it is the file a story video is shown by; where none
/// is, the file with the greatest name is.
pub proof fn lemma_chosen_file_is_720p_else_greatest(files: Seq<(String, Option<String>)>, i: int)
    requires
        names_unique(files),
        chosen_file_at(files, i),
    ensures
        forall|j: int|
            0 <= j < files.len() && (#[trigger] files[j]).0@ == seq![
                'm',
                'p',
                '4',
                '_',
                '7',
                '2',
                '0',
            ] ==> j == i,
        (forall|j: int|
            0 <= j < files.len() ==> (#[trigger] files[j]).0@ != seq![
                'm',
                'p',
                '4',
                '_',
                '7',
                '2',
                '0',
            ]) ==> greatest_name_at(files, i),
{
    assert forall|j: int|
        0 <= j < files.len() && (#[trigger] files[j]).0@ == seq!['m', 'p', '4', '_', '7', '2', '0']
        implies j == i by {
        assert(named_at(files, mp4_720(), j));
        if j != i {
            assert(files[i].0@ == files[j].0@);
        }
    }
    if forall|j: int|
        0 <= j < files.len() ==> (#[trigger] files[j]).0@ != seq!['m', 'p', '4', '_', '7', '2', '0']
    {
        assert(!exists|j: int| #[trigger] named_at(files, mp4_720(), j));
    }
}

impl VkStoryVideo {
    /// The address of the video's 720p MP4 file, or, where it has none, that of the file
    /// with the greatest name.
    pub fn get_url(&self) -> (r: String)
        requires
            self.files@.len() > 0,
            names_unique(self.files@),
            forall|i: int| chosen_file_at(self.files@, i) ==> (#[trigger] self.files@[i]).1 is Some,
        ensures
            exists|i: int|
                chosen_file_at(self.files@, i) && r@ == (#[trigger] self.files@[i]).1->0@,
            forall|j: int|
                0 <= j < self.files@.len() && (#[trigger] self.files@[j]).0@ == seq![
                    'm',
                    'p',
                    '4',
                    '_',
                    '7',
                    '2',
                    '0',
                ] ==> r@ == self.files@[j].1->0@,
            (forall|j: int|
                0 <= j < self.files@.len() ==> (#[trigger] self.files@[j]).0@ != seq![
                    'm',
                    'p',
                    '4',
                    '_',
                    '7',
                    '2',
                    '0',
                ]) ==> exists|i: int|
                greatest_name_at(self.files@, i) && r@ == (#[trigger] self.files@[i]).1->0@,
    {
        let n = self.files.len();
        let target = vec!['m', 'p', '4', '_', '7', '2', '0'];
        assert(target@ =~= mp4_720());
        let mut i: usize = 0;
        while i < n
            invariant
                n == self.files@.len(),
                target@ == mp4_720(),
                i <= n,
                names_unique(self.files@),
                forall|j: int|
                    chosen_file_at(self.files@, j) ==> (#[trigger] self.files@[j]).1 is Some,
                forall|j: int| 0 <= j < i ==> !#[trigger] named_at(self.files@, mp4_720(), j),
            decreases n - i,
        {
            let name = chars_of(self.files[i].0.as_str());
            if chars_eq(&name, &target) {
                assert(named_at(self.files@, mp4_720(), i as int));
                assert(chosen_file_at(self.files@, i as int));
                proof {
                    lemma_chosen_file_is_720p_else_greatest(self.files@, i as int);
                }
                let url = self.files[i].1.as_ref().unwrap();
                return url.clone();
            }
            i = i + 1;
        }
        assert(!exists|j: int| #[trigger] named_at(self.files@, mp4_720(), j));
        let mut best: usize = 0;
        let mut best_name = chars_of(self.files[0].0.as_str());
        let mut k: usize = 1;
        while k < n
            invariant
                n == self.files@.len(),
                names_unique(self.files@),
                0 <= best < k <= n,
                !exists|j: int| #[trigger] named_at(self.files@, mp4_720(), j),
                forall|j: int|
                    chosen_file_at(self.files@, j) ==> (#[trigger] self.files@[j]).1 is Some,
                best_name@ == self.files@[best as int].0@,
                forall|j: int|
                    0 <= j < k && j != best ==> lex_lt(
                        #[trigger] self.files@[j].0@,
                        self.files@[best as int].0@,
                    ),
            decreases n - k,
        {
            let name = chars_of(self.files[k].0.as_str());
            proof {
                lemma_lex_total(name@, best_name@);
            }
            if chars_lt(&best_name, &name) {
                proof {
                    assert forall|j: int| 0 <= j < k + 1 && j != k implies lex_lt(
                        #[trigger] self.files@[j].0@,
                        name@,
                    ) by {
                        if j != best {
                            lemma_lex_transitive(self.files@[j].0@, best_name@, name@);
                        }
                    }
                }
                best = k;
                best_name = name;
            }
            k = k + 1;
        }
        assert(greatest_name_at(self.files@, best as int));
        assert(chosen_file_at(self.files@, best as int));
        proof {
            lemma_chosen_file_is_720p_else_greatest(self.files@, best as int);
        }
        let url = self.files[best].1.as_ref().unwrap();
        url.clone()
    }
}

/// The address a story is shown by: that of its video where it has one, else that of the
/// largest size of its photo.
pub open spec fn story_url_of(story: VkStory, r: Option<String>) -> bool {
    match story.video {
        Some(video) => r matches Some(u) && exists|i: int|
            chosen_file_at(video.files@, i) && u@ == (#[trigger] video.files@[i]).1->0@,
        None => match story.photo {
            Some(photo) => {
                &&& (r is None <==> photo.sizes@.len() == 0)
                &&& r matches Some(u) ==> exists|i: int|
                    is_largest_at(photo.sizes@, i) && u@ == (#[trigger] photo.sizes@[i]).url@
            },
            None => r is None,
        },
    }
}

/// A story without video is shown by its photo's largest size: where the photo has sizes,
/// the address is that of the one size that is largest, and of no other.
pub proof fn lemma_story_shown_by_largest_size(story: VkStory, r: Option<String>, k: int)
    requires
        story_url_of(story, r),
        story.video is None,
        story.photo is Some,
        is_largest_at(story.photo->0.sizes@, k),
    ensures
        r is Some,
        r->0@ == story.photo->0.sizes@[k].url@,
{
    let photo = story.photo->0;
    let u = r->0;
    let i = choose|i: int| is_largest_at(photo.sizes@, i) && u@ == (#[trigger] photo.sizes@[i]).url@;
    lemma_largest_unique(photo.sizes@, i, k);
}

impl VkStory {
    /// The address of the story's video, or, where it has none, that of the largest size
    /// of its photo; `None` where it has neither.
    pub fn get_url(&self) -> (r: Option<String>)
        requires
            self.video matches Some(video) ==> {
                &&& video.files@.len() > 0
                &&& names_unique(video.files@)
                &&& forall|i: int|
                    chosen_file_at(video.files@, i) ==> (#[trigger] video.files@[i]).1 is Some
            },
        ensures
            story_url_of(*self, r),
            self.video matches Some(video) ==> (r matches Some(u) && exists|i: int|
                chosen_file_at(video.files@, i) && u@ == (#[trigger] video.files@[i]).1->0@),
            self.video is None && self.photo is None ==> r is None,
            self.video is None ==> (self.photo matches Some(photo) ==> {
                &&& (r is None <==> photo.sizes@.len() == 0)
                &&& r matches Some(u) ==> exists|i: int|
                    is_largest_at(photo.sizes@, i) && u@ == (#[trigger] photo.sizes@[i]).url@
            }),
    {
        if let Some(video) = &self.video {
            return Some(video.get_url());
        } else if let Some(photo) = &self.photo {
            return match photo.get_largest_size() {
                Some(size) => Some(size.url.clone()),
                None => None,
            };
        }
        None
    }
}

} // verus!
