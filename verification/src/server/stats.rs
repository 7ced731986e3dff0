//! Statistics: leaderboard categories and the text pieces of statistics answers.
use vstd::prelude::*;
use crate::text::{chars_of, concat, decimal, push_str, signed_decimal, signed_decimal_string,
    str_eq, string_of};

verus! {

/// Leaderboard category.
#[derive(Debug, Clone, Copy, PartialEq, Eq, Structural)]
pub enum LeaderboardCategory {
    MostJobs,
    MostSaved,
    HighestSpeed,
}

impl LeaderboardCategory {
    /// The name of a category.
    pub open spec fn text(self) -> Seq<char> {
        match self {
            LeaderboardCategory::MostJobs => "most_jobs"@,
            LeaderboardCategory::MostSaved => "most_saved"@,
            LeaderboardCategory::HighestSpeed => "highest_speed"@,
        }
    }

    /// The category with a given name, if any.
    pub open spec fn named(t: Seq<char>) -> Option<LeaderboardCategory> {
        if t == "most_jobs"@ {
            Some(LeaderboardCategory::MostJobs)
        } else if t == "most_saved"@ {
            Some(LeaderboardCategory::MostSaved)
        } else if t == "highest_speed"@ {
            Some(LeaderboardCategory::HighestSpeed)
        } else {
            None
        }
    }

    /// The name of this category.
    pub fn as_str(&self) -> (res: &'static str)
        ensures
            res@ == self.text(),
    {
        match self {
            LeaderboardCategory::MostJobs => "most_jobs",
            LeaderboardCategory::MostSaved => "most_saved",
            LeaderboardCategory::HighestSpeed => "highest_speed",
        }
    }

    /// The category named `s`; `None` for any other text.
    pub fn from_str(s: &str) -> (res: Option<Self>)
        ensures
            res == LeaderboardCategory::named(s@),
    {
        if str_eq(s, "most_jobs") {
            Some(LeaderboardCategory::MostJobs)
        } else if str_eq(s, "most_saved") {
            Some(LeaderboardCategory::MostSaved)
        } else if str_eq(s, "highest_speed") {
            Some(LeaderboardCategory::HighestSpeed)
        } else {
            None
        }
    }
}

/// Reading back the name of a category gives that category.
pub proof fn category_name_round_trip(category: LeaderboardCategory)
    ensures
        LeaderboardCategory::named(category.text()) == Some(category),
{
    reveal_strlit("most_jobs");
    reveal_strlit("most_saved");
    reveal_strlit("highest_speed");
    assert("most_jobs"@.len() == 9);
    assert("most_saved"@.len() == 10);
    assert("highest_speed"@.len() == 13);
}

/// A name that reads as a category is exactly that category's name.
pub proof fn category_name_unique(t: Seq<char>, category: LeaderboardCategory)
    requires
        LeaderboardCategory::named(t) == Some(category),
    ensures
        t == category.text(),
{
}

/// The overall status of the system.
#[derive(Debug)]
pub struct SystemStatus {
    pub total_media_files: i64,
    pub pending_jobs: i64,
    pub active_jobs: i64,
    pub connected_clients: usize,
}

/// A path separator: `/` or `\`.
pub open spec fn is_path_sep(c: char) -> bool {
    c == '/' || c == '\\'
}

/// The last part of a path: the text after its last separator (`/` or `\`), or the
/// whole path when it holds none.
pub open spec fn file_name_text(s: Seq<char>) -> Seq<char>
    decreases s.len(),
{
    if s.len() == 0 {
        Seq::empty()
    } else if is_path_sep(s.last()) {
        Seq::empty()
    } else {
        file_name_text(s.drop_last()).push(s.last())
    }
}

/// The file name shown for a media file path: the text after the path's last `/` or
/// `\`.
pub fn file_name_of(path: &str) -> (res: String)
    ensures
        res@ == file_name_text(path@),
{
    let cs = chars_of(path);
    let mut start: usize = cs.len();
    assert(path@.take(start as int) =~= path@);
    assert(path@.subrange(start as int, path@.len() as int) =~= Seq::<char>::empty());
    while start > 0 && !(cs[start - 1] == '/' || cs[start - 1] == '\\')
        invariant
            cs@ == path@,
            start <= cs.len(),
            file_name_text(path@) == file_name_text(path@.take(start as int)) + path@.subrange(
                start as int,
                path@.len() as int,
            ),
        decreases start,
    {
        let ghost t = path@.take(start as int);
        assert(t.drop_last() =~= path@.take(start - 1));
        assert(t.last() == path@[start - 1]);
        assert(path@.subrange(start - 1, path@.len() as int) =~= seq![path@[start - 1]]
            + path@.subrange(start as int, path@.len() as int));
        assert(file_name_text(path@.take(start - 1)).push(path@[start - 1]) + path@.subrange(
            start as int,
            path@.len() as int,
        ) =~= file_name_text(path@.take(start - 1)) + path@.subrange(
            start - 1,
            path@.len() as int,
        ));
        start = start - 1;
    }
    proof {
        if start > 0 {
            let t = path@.take(start as int);
            assert(t.last() == path@[start - 1]);
        }
        assert(file_name_text(path@.take(start as int)) =~= Seq::<char>::empty());
    }
    let tail = cs.as_slice().split_at(start).1;
    assert(tail@ =~= path@.subrange(start as int, path@.len() as int));
    string_of(tail)
}

/// The sizes and duration of one completed job in a client's history.
#[derive(Debug, Clone, Copy, PartialEq, Eq, Structural)]
pub struct HistorySizes {
    pub duration_seconds: i64,
    pub size_before: i64,
    pub size_after: i64,
    pub size_saved: i64,
}

/// The sizes of a completed job: its duration from start to completion, its size before
/// (as scanned) and after (the output's, or the scanned size when none was reported),
/// and the bytes saved.
pub fn history_sizes(scanned_size: i64, output_size: Option<i64>, started_at: i64, completed_at: i64) -> (res:
    HistorySizes)
    requires
        i64::MIN <= completed_at - started_at <= i64::MAX,
        output_size matches Some(o) ==> i64::MIN <= scanned_size - o <= i64::MAX,
    ensures
        res.duration_seconds == completed_at - started_at,
        res.size_before == scanned_size,
        res.size_after == (match output_size {
            Some(o) => o,
            None => scanned_size,
        }),
        res.size_saved == res.size_before - res.size_after,
{
    let after = match output_size {
        Some(o) => o,
        None => scanned_size,
    };
    HistorySizes {
        duration_seconds: completed_at - started_at,
        size_before: scanned_size,
        size_after: after,
        size_saved: scanned_size - after,
    }
}

/// The sum of a field over the entries.
pub open spec fn total_of(entries: Seq<HistorySizes>, field: spec_fn(HistorySizes) -> i64) -> int
    decreases entries.len(),
{
    if entries.len() == 0 {
        0
    } else {
        total_of(entries.drop_last(), field) + field(entries.last()) as int
    }
}

/// Every partial sum of a field over the entries fits in an `i64`.
pub open spec fn totals_fit(entries: Seq<HistorySizes>, field: spec_fn(HistorySizes) -> i64) -> bool {
    forall|k: int| 0 <= k <= entries.len() ==> i64::MIN <= #[trigger] total_of(entries.take(k), field) <= i64::MAX
}

/// The size before of an entry.
pub open spec fn before_of(e: HistorySizes) -> i64 {
    e.size_before
}

/// The size after of an entry.
pub open spec fn after_of(e: HistorySizes) -> i64 {
    e.size_after
}

/// The duration of an entry.
pub open spec fn duration_of(e: HistorySizes) -> i64 {
    e.duration_seconds
}

/// The totals over a client's history: the total duration and the total bytes saved
/// (the sizes before less the sizes after).
pub fn history_totals(entries: &[HistorySizes]) -> (res: (i64, i64))
    requires
        totals_fit(entries@, |e: HistorySizes| duration_of(e)),
        totals_fit(entries@, |e: HistorySizes| before_of(e)),
        totals_fit(entries@, |e: HistorySizes| after_of(e)),
        i64::MIN <= total_of(entries@, |e: HistorySizes| before_of(e)) - total_of(
            entries@,
            |e: HistorySizes| after_of(e),
        ) <= i64::MAX,
    ensures
        res.0 == total_of(entries@, |e: HistorySizes| duration_of(e)),
        res.1 == total_of(entries@, |e: HistorySizes| before_of(e)) - total_of(
            entries@,
            |e: HistorySizes| after_of(e),
        ),
{
    let mut duration: i64 = 0;
    let mut before: i64 = 0;
    let mut after: i64 = 0;
    let mut k: usize = 0;
    assert(entries@.take(0) =~= Seq::<HistorySizes>::empty());
    while k < entries.len()
        invariant
            k <= entries.len(),
            totals_fit(entries@, |e: HistorySizes| duration_of(e)),
            totals_fit(entries@, |e: HistorySizes| before_of(e)),
            totals_fit(entries@, |e: HistorySizes| after_of(e)),
            duration == total_of(entries@.take(k as int), |e: HistorySizes| duration_of(e)),
            before == total_of(entries@.take(k as int), |e: HistorySizes| before_of(e)),
            after == total_of(entries@.take(k as int), |e: HistorySizes| after_of(e)),
        decreases entries.len() - k,
    {
        let ghost t = entries@.take(k + 1);
        assert(t.drop_last() =~= entries@.take(k as int));
        assert(t.last() == entries@[k as int]);
        assert(i64::MIN <= total_of(t, |e: HistorySizes| duration_of(e)) <= i64::MAX);
        assert(i64::MIN <= total_of(t, |e: HistorySizes| before_of(e)) <= i64::MAX);
        assert(i64::MIN <= total_of(t, |e: HistorySizes| after_of(e)) <= i64::MAX);
        let e = entries[k];
        duration = duration + e.duration_seconds;
        before = before + e.size_before;
        after = after + e.size_after;
        k = k + 1;
    }
    assert(entries@.take(entries.len() as int) =~= entries@);
    (duration, before - after)
}

/// The text shown for a number of completed jobs: the count and ` jobs`.
pub fn jobs_label(count: i64) -> (res: String)
    ensures
        res@ == signed_decimal(count as int) + " jobs"@,
{
    let mut res = signed_decimal_string(count);
    push_str(&mut res, " jobs");
    res
}

/// The rank shown for the entry at position `index` of a leaderboard: ranks start at 1.
pub fn rank_of(index: usize) -> (res: i64)
    requires
        index < i64::MAX,
    ensures
        res == index + 1,
{
    (index as i64) + 1
}

/// The names of the leaderboard categories: `most_jobs`, `most_saved` and
/// `highest_speed`.
pub proof fn category_names()
    ensures
        LeaderboardCategory::MostJobs.text() == "most_jobs"@,
        LeaderboardCategory::MostSaved.text() == "most_saved"@,
        LeaderboardCategory::HighestSpeed.text() == "highest_speed"@,
{
}

} // verus!
