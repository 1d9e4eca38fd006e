//! Choosing, ranking and showing a channel's uploads.

use crate::duration::{duration_longer_than_minute, is_greater_than_one_minute, iso_whole_secs};
use crate::text::{en_grouped, grouped_decimal};
use vstd::multiset::Multiset;
use vstd::prelude::*;
use vstd::multiset::{group_multiset_axioms, lemma_multiset_empty_len};
use vstd::seq_lib::{to_multiset_build, to_multiset_insert, to_multiset_len};
use vstd::string::StringExecFns;

verus! {

/// What is known of one upload once its statistics have been fetched.
pub struct Upload {
    pub video_id: String,
    pub title: String,
    pub thumbnail: String,
    pub view_count: u64,
    /// The length of the video as an ISO-8601 duration, such as `PT4M13S`.
    pub duration: String,
}

/// A video as it is ranked and shown.
pub struct Video {
    pub title: String,
    pub view_count: u64,
    pub thumbnail: String,
    pub video_url: String,
}

/// The value a `Video` stands for.
pub struct VideoView {
    pub title: Seq<char>,
    pub view_count: u64,
    pub thumbnail: Seq<char>,
    pub video_url: Seq<char>,
}

impl View for Video {
    type V = VideoView;

    open spec fn view(&self) -> VideoView {
        VideoView {
            title: self.title@,
            view_count: self.view_count,
            thumbnail: self.thumbnail@,
            video_url: self.video_url@,
        }
    }
}

/// The views of a sequence of videos.
pub open spec fn views(s: Seq<Video>) -> Seq<VideoView> {
    s.map_values(|v: Video| v@)
}

/// Whether the view counts never grow from one video to the next.
pub open spec fn ranked(s: Seq<VideoView>) -> bool {
    forall|i: int, j: int| 0 <= i < j < s.len() ==> s[i].view_count >= s[j].view_count
}

/// The page on which the video `id` is watched.
pub open spec fn watch_url_of(id: Seq<char>) -> Seq<char> {
    "https://www.youtube.com/watch?v="@ + id
}

/// The video that an upload becomes.
pub open spec fn video_of(u: Upload) -> VideoView {
    VideoView {
        title: u.title@,
        view_count: u.view_count,
        thumbnail: u.thumbnail@,
        video_url: watch_url_of(u.video_id@),
    }
}

/// Whether an upload is kept: always, unless short clips are left out, and
/// then only where it lasts more than a minute. `None` where that asks for
/// a duration that cannot be read.
pub open spec fn kept_upload(u: Upload, no_short: bool) -> Option<bool> {
    if no_short {
        duration_longer_than_minute(u.duration@)
    } else {
        Some(true)
    }
}

/// The videos that the uploads `s` become, in their order, leaving out those
/// that are not kept; `None` where one of them cannot be decided.
pub open spec fn kept_videos(s: Seq<Upload>, no_short: bool) -> Option<Seq<VideoView>>
    decreases s.len(),
{
    if s.len() == 0 {
        Some(Seq::empty())
    } else {
        match kept_videos(s.drop_last(), no_short) {
            None => None,
            Some(prev) => match kept_upload(s.last(), no_short) {
                None => None,
                Some(true) => Some(prev.push(video_of(s.last()))),
                Some(false) => Some(prev),
            },
        }
    }
}

proof fn lemma_undecided_prefix(s: Seq<Upload>, n: int, no_short: bool)
    requires
        0 <= n <= s.len(),
        kept_videos(s.take(n), no_short) is None,
    ensures
        kept_videos(s, no_short) is None,
    decreases s.len() - n,
{
    if n < s.len() {
        assert(s.take(n + 1).drop_last() =~= s.take(n));
        lemma_undecided_prefix(s, n + 1, no_short);
    } else {
        assert(s.take(n) =~= s);
    }
}

/// The page on which the video `id` is watched.
pub fn watch_url(id: &str) -> (r: String)
    ensures
        r@ == watch_url_of(id@),
{
    String::from_str("https://www.youtube.com/watch?v=").concat(id)
}

/// The first place in `s` whose view count is at most `count`, or the
/// length of `s` where there is none.
pub open spec fn first_at_most(s: Seq<VideoView>, count: u64) -> nat
    decreases s.len(),
{
    if s.len() == 0 || s[0].view_count <= count {
        0
    } else {
        1 + first_at_most(s.drop_first(), count)
    }
}

/// `s` in order of view count, most viewed first, where videos with equal
/// counts keep the order they have in `s`: the first video stands before
/// every video of the ranked rest that has no more views.
pub open spec fn stable_ranked(s: Seq<VideoView>) -> Seq<VideoView>
    decreases s.len(),
{
    if s.len() == 0 {
        s
    } else {
        let rest = stable_ranked(s.drop_first());
        rest.insert(first_at_most(rest, s[0].view_count) as int, s[0])
    }
}

proof fn lemma_first_at_most(s: Seq<VideoView>, count: u64, j: int)
    requires
        0 <= j <= s.len(),
        forall|k: int| 0 <= k < j ==> s[k].view_count > count,
        j == s.len() || s[j].view_count <= count,
    ensures
        first_at_most(s, count) == j,
    decreases s.len(),
{
    if s.len() > 0 && j > 0 {
        lemma_first_at_most(s.drop_first(), count, j - 1);
    }
}

/// The videos of `s` whose view count is `count`, in their order.
pub open spec fn with_count(s: Seq<VideoView>, count: u64) -> Seq<VideoView> {
    s.filter(|v: VideoView| v.view_count == count)
}

proof fn lemma_before_first_at_most(s: Seq<VideoView>, count: u64)
    ensures
        first_at_most(s, count) <= s.len(),
        forall|k: int| 0 <= k < first_at_most(s, count) ==> s[k].view_count > count,
    decreases s.len(),
{
    if s.len() > 0 && s[0].view_count > count {
        lemma_before_first_at_most(s.drop_first(), count);
        assert forall|k: int| 0 <= k < first_at_most(s, count) implies s[k].view_count
            > count by {
            if k > 0 {
                assert(s[k] == s.drop_first()[k - 1]);
            }
        }
    }
}

/// Ranking keeps videos of equal view count in the order they had: for each
/// count, the videos with that count come in the same order before and after.
pub proof fn lemma_equal_counts_keep_order(s: Seq<VideoView>, count: u64)
    ensures
        with_count(stable_ranked(s), count) == with_count(s, count),
    decreases s.len(),
{
    broadcast use {Seq::filter_distributes_over_add, Seq::lemma_filter_prepend};

    if s.len() > 0 {
        let t = s.drop_first();
        let rest = stable_ranked(t);
        let x = s[0];
        let p = first_at_most(rest, x.view_count) as int;
        lemma_equal_counts_keep_order(t, count);
        lemma_before_first_at_most(rest, x.view_count);
        let front = rest.take(p);
        let back = rest.skip(p);
        assert(rest =~= front + back);
        assert(stable_ranked(s) =~= front + (seq![x] + back));
        assert(s =~= seq![x] + t);
        if x.view_count == count {
            front.lemma_all_neg_filter_empty(|v: VideoView| v.view_count == count);
            assert(with_count(front, count) =~= Seq::empty());
        }
        assert(with_count(stable_ranked(s), count) =~= with_count(s, count));
    }
}

/// The videos in order of view count, most viewed first; videos with equal
/// counts keep their order.
pub fn rank_videos(videos: Vec<Video>) -> (r: Vec<Video>)
    ensures
        views(r@) == stable_ranked(views(videos@)),
        ranked(views(r@)),
        forall|c: u64| #[trigger] with_count(views(r@), c) == with_count(views(videos@), c),
        views(r@).to_multiset() == views(videos@).to_multiset(),
{
    broadcast use {
        to_multiset_build,
        to_multiset_insert,
        to_multiset_len,
        lemma_multiset_empty_len,
        group_multiset_axioms,
    };

    let mut rest = videos;
    let mut out: Vec<Video> = Vec::new();
    assert(views(out@) =~= Seq::empty());
    assert(views(out@).to_multiset().len() == 0);
    assert(views(out@).to_multiset() =~= Multiset::empty());
    assert(views(videos@).subrange(videos@.len() as int, videos@.len() as int) =~= Seq::empty());
    while rest.len() > 0
        invariant
            rest@.len() <= videos@.len(),
            rest@ == videos@.take(rest@.len() as int),
            views(out@) == stable_ranked(
                views(videos@).subrange(rest@.len() as int, videos@.len() as int),
            ),
            ranked(views(out@)),
            views(out@).to_multiset().add(views(rest@).to_multiset()) == views(
                videos@,
            ).to_multiset(),
        decreases rest.len(),
    {
        let ghost before = rest@;
        let v = rest.pop().unwrap();
        assert(views(before) =~= views(rest@).push(v@));
        let mut j: usize = 0;
        while j < out.len() && out[j].view_count > v.view_count
            invariant
                j <= out.len(),
                forall|k: int| 0 <= k < j ==> out@[k].view_count > v.view_count,
            decreases out.len() - j,
        {
            j = j + 1;
        }
        let ghost prev = out@;
        proof {
            lemma_first_at_most(views(prev), v.view_count, j as int);
            let n = rest@.len() as int;
            assert(before.len() == n + 1);
            assert(v == before[n]);
            assert(before[n] == videos@[n]);
            let tail = views(videos@).subrange(n, videos@.len() as int);
            assert(tail.drop_first() =~= views(videos@).subrange(n + 1, videos@.len() as int));
            assert(tail[0] == v@);
        }
        out.insert(j, v);
        assert(views(out@) =~= views(prev).insert(j as int, v@));
        assert(rest@ =~= videos@.take(rest@.len() as int));
        proof {
            to_multiset_insert(views(prev), j as int, v@);
            to_multiset_build(views(rest@), v@);
        }
        assert(views(out@).to_multiset().add(views(rest@).to_multiset()) =~= views(
            prev,
        ).to_multiset().add(views(before).to_multiset()));
        assert(ranked(views(out@))) by {
            let pv = views(prev);
            let ov = views(out@);
            assert forall|a: int, b: int| 0 <= a < b < ov.len() implies ov[a].view_count
                >= ov[b].view_count by {
                if b < j {
                    assert(pv[a].view_count >= pv[b].view_count);
                } else if a < j && b == j {
                } else if a < j {
                    assert(pv[a].view_count >= pv[b - 1].view_count);
                } else if a == j {
                    assert(pv[j as int].view_count <= v.view_count);
                    assert(pv[j as int].view_count >= pv[b - 1].view_count);
                } else {
                    assert(pv[a - 1].view_count >= pv[b - 1].view_count);
                }
            }
        }
    }
    assert(views(rest@) =~= Seq::empty());
    assert(views(rest@).to_multiset() =~= Multiset::empty());
    assert(views(videos@).subrange(0, videos@.len() as int) =~= views(videos@));
    proof {
        assert forall|c: u64| #[trigger] with_count(views(out@), c) == with_count(
            views(videos@),
            c,
        ) by {
            lemma_equal_counts_keep_order(views(videos@), c);
        }
    }
    out
}

/// The videos that `uploads` become, leaving out short clips where
/// `no_short` holds, most viewed first. `None` where short clips are left
/// out and the duration of an upload cannot be read.
pub fn select_videos(uploads: &Vec<Upload>, no_short: bool) -> (r: Option<Vec<Video>>)
    ensures
        match kept_videos(uploads@, no_short) {
            None => r is None,
            Some(k) => r matches Some(v) && views(v@) == stable_ranked(k) && ranked(views(v@))
                && views(v@).to_multiset() == k.to_multiset() && forall|c: u64|
                #[trigger] with_count(views(v@), c) == with_count(k, c),
        },
{
    let mut out: Vec<Video> = Vec::new();
    let mut i: usize = 0;
    assert(uploads@.take(0) =~= Seq::empty());
    assert(views(out@) =~= Seq::empty());
    while i < uploads.len()
        invariant
            i <= uploads.len(),
            kept_videos(uploads@.take(i as int), no_short) == Some(views(out@)),
        decreases uploads.len() - i,
    {
        let u = &uploads[i];
        assert(uploads@.take(i + 1).drop_last() =~= uploads@.take(i as int));
        assert(uploads@.take(i + 1).last() == *u);
        let keep = if no_short {
            match is_greater_than_one_minute(u.duration.as_str()) {
                Some(b) => b,
                None => {
                    proof {
                        lemma_undecided_prefix(uploads@, i + 1, no_short);
                    }
                    return None;
                },
            }
        } else {
            true
        };
        if keep {
            let ghost prev = out@;
            let video = Video {
                title: u.title.clone(),
                view_count: u.view_count,
                thumbnail: u.thumbnail.clone(),
                video_url: watch_url(u.video_id.as_str()),
            };
            out.push(video);
            assert(views(out@) =~= views(prev).push(video_of(*u)));
        }
        i = i + 1;
    }
    assert(uploads@.take(i as int) =~= uploads@);
    Some(rank_videos(out))
}

/// The text that shows one video: its title, its view count with commas
/// between groups of three digits, and its thumbnail as a link to the video.
pub open spec fn block_text(v: VideoView) -> Seq<char> {
    "### "@ + v.title + " \n### view count: "@ + grouped_decimal(v.view_count as nat) + "\n\n"@
        + "[![thumbnail]("@ + v.thumbnail + ")]("@ + v.video_url + ")\n\n"@
}

/// The number of videos shown of `len`, when at most `max` are shown.
pub open spec fn shown_count(len: nat, max: u64) -> nat {
    if len <= max {
        len
    } else {
        max as nat
    }
}

/// The text that shows `v`.
pub fn video_block(v: &Video) -> (r: String)
    ensures
        r@ == block_text(v@),
{
    let mut s = String::from_str("### ");
    s.append(v.title.as_str());
    s.append(" \n### view count: ");
    let count = en_grouped(v.view_count);
    s.append(count.as_str());
    s.append("\n\n");
    s.append("[![thumbnail](");
    s.append(v.thumbnail.as_str());
    s.append(")](");
    s.append(v.video_url.as_str());
    s.append(")\n\n");
    assert(s@ =~= block_text(v@));
    s
}

/// The blocks of text that show the first `max_display_vid` videos, in the
/// order of `videos`.
pub fn display_vid(videos: &Vec<Video>, max_display_vid: u64) -> (r: Vec<String>)
    ensures
        r.len() == shown_count(videos.len() as nat, max_display_vid),
        forall|i: int| 0 <= i < r.len() ==> #[trigger] r@[i]@ == block_text(videos@[i]@),
{
    let mut out: Vec<String> = Vec::new();
    let mut i: usize = 0;
    while i < videos.len() && (i as u64) < max_display_vid
        invariant
            i <= videos.len(),
            i <= max_display_vid,
            out.len() == i,
            forall|k: int| 0 <= k < i ==> #[trigger] out@[k]@ == block_text(videos@[k]@),
        decreases videos.len() - i,
    {
        out.push(video_block(&videos[i]));
        i = i + 1;
    }
    out
}

/// Ranked videos are shown most viewed first: the videos that the first
/// `n` blocks show have view counts that never grow.
pub proof fn lemma_shown_in_rank_order(videos: Seq<VideoView>, n: nat)
    requires
        ranked(videos),
        n <= videos.len(),
    ensures
        ranked(videos.take(n as int)),
{
}

/// No more videos are shown than were asked for.
pub proof fn lemma_shown_at_most(len: nat, max: u64)
    ensures
        shown_count(len, max) <= max,
        shown_count(len, max) <= len,
{
}

/// With short clips left out, an upload that lasts a minute or less adds
/// no video to those kept from the uploads before it.
pub proof fn lemma_short_clip_left_out(s: Seq<Upload>, i: int)
    requires
        0 <= i < s.len(),
        iso_whole_secs(s[i].duration@) matches Some(secs) && secs <= 60,
    ensures
        kept_videos(s.take(i + 1), true) == kept_videos(s.take(i), true),
{
    assert(s.take(i + 1).drop_last() =~= s.take(i));
}

/// Whether the duration of `u` reads as more than a minute.
pub open spec fn lasts_over_minute(u: Upload) -> bool {
    iso_whole_secs(u.duration@) matches Some(secs) && secs > 60
}

/// Whether `v` is what one of the uploads `s` that lasts more than a minute
/// becomes.
pub open spec fn from_long_upload(s: Seq<Upload>, v: VideoView) -> bool {
    exists|i: int| 0 <= i < s.len() && #[trigger] video_of(s[i]) == v && lasts_over_minute(s[i])
}

/// With short clips left out, every video kept comes from an upload that
/// lasts more than a minute.
pub proof fn lemma_only_long_videos_kept(s: Seq<Upload>, k: Seq<VideoView>)
    requires
        kept_videos(s, true) == Some(k),
    ensures
        forall|j: int| 0 <= j < k.len() ==> #[trigger] from_long_upload(s, k[j]),
    decreases s.len(),
{
    if s.len() > 0 {
        let rest = s.drop_last();
        let prev = kept_videos(rest, true)->Some_0;
        lemma_only_long_videos_kept(rest, prev);
        assert forall|j: int| 0 <= j < k.len() implies #[trigger] from_long_upload(s, k[j]) by {
            if j < prev.len() {
                assert(from_long_upload(rest, prev[j]));
                let i = choose|i: int|
                    0 <= i < rest.len() && #[trigger] video_of(rest[i]) == prev[j]
                        && lasts_over_minute(rest[i]);
                assert(s[i] == rest[i]);
            } else {
                assert(video_of(s[s.len() - 1]) == k[j]);
            }
        }
    }
}

} // verus!
