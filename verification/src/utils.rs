//! Helpers of the browser run: which pages to offer, how long to dwell on
//! one, how large a window to open.

use crate::text::text;
use rand::seq::SliceRandom;
use rand::Rng;
use vstd::prelude::*;
use vstd::string::StrSliceExecFns;

verus! {

/// `rand::Rng::gen_range` on `rand::thread_rng()` with the half-open range
/// `lo..hi`: some value of the range. The call panics on an empty range,
/// which `requires` excludes; nothing is claimed of which value comes.
#[verifier::external_body]
pub(crate) fn random_below(lo: u64, hi: u64) -> (r: u64)
    requires
        lo < hi,
    ensures
        lo <= r < hi,
{
    rand::thread_rng().gen_range(lo..hi)
}

/// Whether `picked` can be had from `from` by taking entries at pairwise
/// different positions.
pub open spec fn drawn_from(picked: Seq<Seq<char>>, from: Seq<Seq<char>>) -> bool {
    exists|at: Seq<int>|
        at.len() == picked.len() && at.no_duplicates() && forall|k: int|
            0 <= k < picked.len() ==> 0 <= #[trigger] at[k] < from.len() && picked[k]
                == from[at[k]]
}

/// `rand::seq::SliceRandom::choose_multiple` on `rand::thread_rng()`: copies
/// of `amount` entries of `urls` (of all of them where there are fewer), taken
/// at pairwise different positions, in an order that nothing is claimed of.
#[verifier::external_body]
pub(crate) fn choose_multiple(urls: &Vec<String>, amount: usize) -> (r: Vec<String>)
    ensures
        r.len() == if amount <= urls.len() {
            amount
        } else {
            urls.len()
        },
        drawn_from(r.deep_view(), urls.deep_view()),
{
    urls.choose_multiple(&mut rand::thread_rng(), amount).cloned().collect()
}

/// Whether `s` begins with `prefix`.
pub fn starts_with(s: &str, prefix: &str) -> (r: bool)
    ensures
        r == prefix@.is_prefix_of(s@),
{
    let n = prefix.unicode_len();
    if n > s.unicode_len() {
        return false;
    }
    let mut i: usize = 0;
    while i < n
        invariant
            i <= n,
            n == prefix@.len(),
            n <= s@.len(),
            forall|j: int| 0 <= j < i ==> s@[j] == prefix@[j],
        decreases n - i,
    {
        if s.get_char(i) != prefix.get_char(i) {
            return false;
        }
        i = i + 1;
    }
    true
}

/// One entry of a list of pages on offer.
#[derive(Debug)]
pub struct News {
    /// When the page was approved, beginning with the date as `YYYY-MM-DD`.
    pub audit_time: String,
    pub url: String,
}

/// Mathematical value of a [`News`].
pub struct NewsView {
    pub audit_time: Seq<char>,
    pub url: Seq<char>,
}

impl View for News {
    type V = NewsView;

    open spec fn view(&self) -> NewsView {
        NewsView { audit_time: self.audit_time@, url: self.url@ }
    }
}

impl DeepView for News {
    type V = NewsView;

    open spec fn deep_view(&self) -> NewsView {
        self@
    }
}

/// At most this many pages are drawn at random.
pub const SAMPLE_SIZE: usize = 30;

/// The addresses of those among the first `n` entries that were approved on
/// the day `today`.
pub open spec fn latest_prefix(list: Seq<NewsView>, n: nat, today: Seq<char>) -> Seq<Seq<char>>
    decreases n,
{
    if n == 0 {
        Seq::empty()
    } else {
        let p = latest_prefix(list, (n - 1) as nat, today);
        if today.is_prefix_of(list[n - 1].audit_time) {
            p.push(list[n - 1].url)
        } else {
            p
        }
    }
}

/// The addresses of all entries, in order.
pub open spec fn spec_urls(list: Seq<NewsView>) -> Seq<Seq<char>> {
    Seq::new(list.len(), |i: int| list[i].url)
}

/// The addresses of the entries that were approved on the day `today`, in
/// the order of the list.
pub fn latest_urls(list: &Vec<News>, today: &str) -> (r: Vec<String>)
    ensures
        r.deep_view() == latest_prefix(list.deep_view(), list.len() as nat, today@),
{
    let mut r: Vec<String> = Vec::new();
    let mut i: usize = 0;
    while i < list.len()
        invariant
            i <= list.len(),
            r.deep_view() == latest_prefix(list.deep_view(), i as nat, today@),
        decreases list.len() - i,
    {
        if starts_with(list[i].audit_time.as_str(), today) {
            r.push(list[i].url.clone());
        }
        i = i + 1;
    }
    r
}

/// The addresses of all entries, in order.
pub fn urls(list: &Vec<News>) -> (r: Vec<String>)
    ensures
        r.deep_view() == spec_urls(list.deep_view()),
{
    let mut r: Vec<String> = Vec::new();
    let mut i: usize = 0;
    while i < list.len()
        invariant
            i <= list.len(),
            r.len() == i,
            forall|j: int| 0 <= j < i ==> (#[trigger] r[j])@ == list[j]@.url,
        decreases list.len() - i,
    {
        r.push(list[i].url.clone());
        i = i + 1;
    }
    r
}

/// The pages on offer, given today's pages and a random draw from all pages:
/// today's first, the draw after them.
pub fn merge_urls(latest: Vec<String>, drawn: Vec<String>) -> (r: Vec<String>)
    ensures
        r.deep_view() == latest.deep_view() + drawn.deep_view(),
{
    let mut r = latest;
    let mut i: usize = 0;
    while i < drawn.len()
        invariant
            i <= drawn.len(),
            r.deep_view() == latest.deep_view() + drawn.deep_view().take(i as int),
        decreases drawn.len() - i,
    {
        let ghost before = r.deep_view();
        r.push(drawn[i].clone());
        assert(r.deep_view() =~= before.push(drawn[i as int]@));
        assert(drawn.deep_view().take(i + 1) =~= drawn.deep_view().take(i as int).push(
            drawn[i as int]@,
        ));
        i = i + 1;
    }
    r
}

/// The pages to offer out of `list` on the day `today`: the pages approved
/// today, in the order of the list, followed by up to [`SAMPLE_SIZE`] pages
/// drawn at random from the whole list, no entry of the list drawn twice.
pub fn get_some_url(list: &Vec<News>, today: &str) -> (r: Vec<String>)
    ensures
        exists|drawn: Seq<Seq<char>>|
            #[trigger] drawn_from(drawn, spec_urls(list.deep_view())) && r.deep_view()
                == latest_prefix(list.deep_view(), list.len() as nat, today@) + drawn
                && drawn.len() == if list.len() < SAMPLE_SIZE {
                list.len()
            } else {
                SAMPLE_SIZE
            },
{
    let latest = latest_urls(list, today);
    let all = urls(list);
    let drawn = choose_multiple(&all, SAMPLE_SIZE);
    assert(all.deep_view().len() == list.len());
    merge_urls(latest, drawn)
}

/// One thing done while a page is visited.
#[derive(Debug)]
pub enum BrowseStep {
    /// Open the page at this address and wait until it is loaded.
    Open(String),
    /// Do nothing for this many seconds.
    Pause(u64),
    /// Scroll smoothly to this offset.
    Scroll(i64),
    /// Start the video of the page.
    Play,
}

/// Mathematical value of a [`BrowseStep`].
pub enum BrowseStepView {
    Open(Seq<char>),
    Pause(u64),
    Scroll(i64),
    Play,
}

impl View for BrowseStep {
    type V = BrowseStepView;

    open spec fn view(&self) -> BrowseStepView {
        match *self {
            BrowseStep::Open(u) => BrowseStepView::Open(u@),
            BrowseStep::Pause(s) => BrowseStepView::Pause(s),
            BrowseStep::Scroll(o) => BrowseStepView::Scroll(o),
            BrowseStep::Play => BrowseStepView::Play,
        }
    }
}

impl DeepView for BrowseStep {
    type V = BrowseStepView;

    open spec fn deep_view(&self) -> BrowseStepView {
        self@
    }
}

/// Reading an article takes between these many seconds (the upper end not
/// included), besides the fixed pauses.
pub const NEWS_DWELL_MIN: u64 = 80;

pub const NEWS_DWELL_MAX: u64 = 110;

/// Watching a video takes between these many seconds (the upper end not
/// included), besides the fixed pauses.
pub const VIDEO_DWELL_MIN: u64 = 130;

pub const VIDEO_DWELL_MAX: u64 = 260;

/// Reading the article at `url` for `dwell` seconds: open it, wait, scroll
/// down in three moves with half the time between each, wait, scroll back.
pub open spec fn spec_news_steps(url: Seq<char>, dwell: u64) -> Seq<BrowseStepView> {
    seq![
        BrowseStepView::Open(url),
        BrowseStepView::Pause(10),
        BrowseStepView::Scroll(394),
        BrowseStepView::Pause(dwell / 2),
        BrowseStepView::Scroll(1000),
        BrowseStepView::Pause(dwell / 2),
        BrowseStepView::Scroll(3000),
        BrowseStepView::Pause(10),
        BrowseStepView::Scroll(0),
    ]
}

/// Watching the video at `url` for `dwell` seconds: open it, wait a moment,
/// scroll to the player, start it, and move the page twice with half the
/// time before each move.
pub open spec fn spec_video_steps(url: Seq<char>, dwell: u64) -> Seq<BrowseStepView> {
    seq![
        BrowseStepView::Open(url),
        BrowseStepView::Pause(1),
        BrowseStepView::Scroll(394),
        BrowseStepView::Play,
        BrowseStepView::Pause(dwell / 2),
        BrowseStepView::Scroll(500),
        BrowseStepView::Pause(dwell / 2),
        BrowseStepView::Scroll(300),
    ]
}

/// The steps of reading the article at `url` for `dwell` seconds.
pub fn news_steps(url: &str, dwell: u64) -> (r: Vec<BrowseStep>)
    ensures
        r.deep_view() == spec_news_steps(url@, dwell),
{
    let mut r: Vec<BrowseStep> = Vec::new();
    r.push(BrowseStep::Open(text(url)));
    r.push(BrowseStep::Pause(10));
    r.push(BrowseStep::Scroll(394));
    r.push(BrowseStep::Pause(dwell / 2));
    r.push(BrowseStep::Scroll(1000));
    r.push(BrowseStep::Pause(dwell / 2));
    r.push(BrowseStep::Scroll(3000));
    r.push(BrowseStep::Pause(10));
    r.push(BrowseStep::Scroll(0));
    r
}

/// The steps of watching the video at `url` for `dwell` seconds.
pub fn video_steps(url: &str, dwell: u64) -> (r: Vec<BrowseStep>)
    ensures
        r.deep_view() == spec_video_steps(url@, dwell),
{
    let mut r: Vec<BrowseStep> = Vec::new();
    r.push(BrowseStep::Open(text(url)));
    r.push(BrowseStep::Pause(1));
    r.push(BrowseStep::Scroll(394));
    r.push(BrowseStep::Play);
    r.push(BrowseStep::Pause(dwell / 2));
    r.push(BrowseStep::Scroll(500));
    r.push(BrowseStep::Pause(dwell / 2));
    r.push(BrowseStep::Scroll(300));
    r
}

/// The steps of reading the article at `url`, for a time drawn at random
/// from `NEWS_DWELL_MIN..NEWS_DWELL_MAX`.
pub fn browse_news(url: &str) -> (r: Vec<BrowseStep>)
    ensures
        exists|dwell: u64|
            NEWS_DWELL_MIN <= dwell < NEWS_DWELL_MAX && r.deep_view() == spec_news_steps(
                url@,
                dwell,
            ),
{
    let dwell = random_below(NEWS_DWELL_MIN, NEWS_DWELL_MAX);
    news_steps(url, dwell)
}

/// The steps of watching the video at `url`, for a time drawn at random from
/// `VIDEO_DWELL_MIN..VIDEO_DWELL_MAX`.
pub fn browse_video(url: &str) -> (r: Vec<BrowseStep>)
    ensures
        exists|dwell: u64|
            VIDEO_DWELL_MIN <= dwell < VIDEO_DWELL_MAX && r.deep_view() == spec_video_steps(
                url@,
                dwell,
            ),
{
    let dwell = random_below(VIDEO_DWELL_MIN, VIDEO_DWELL_MAX);
    video_steps(url, dwell)
}

/// Width and height of a new browser window, drawn at random: the width
/// from `1440..2000`, the height from `720..1100`.
pub fn window_size() -> (r: (u32, u32))
    ensures
        1440 <= r.0 < 2000,
        720 <= r.1 < 1100,
{
    let w = random_below(1440, 2000);
    let h = random_below(720, 1100);
    (w as u32, h as u32)
}

} // verus!
