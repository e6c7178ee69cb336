//! Library scanning: which files on disk are new, which known media changed
//! and which have disappeared, and the records created for new episodes.
use vstd::prelude::*;

use crate::domain::{MediaAvailability, MetadataStatus};
use crate::text::{
    decimal_seq, owned, push_decimal, push_signed_decimal, push_str_chars, signed_decimal_seq,
    string_of,
};

verus! {

/// Extensions of the video files a scan looks for.
pub fn supported_extensions() -> (r: Vec<&'static str>)
    ensures
        r@.map_values(|e: &str| e@) == seq![
            "mkv"@,
            "mp4"@,
            "avi"@,
            "mov"@,
            "m4v"@,
            "webm"@,
            "flv"@,
            "ts"@,
            "wmv"@,
        ],
{
    let r = vec!["mkv", "mp4", "avi", "mov", "m4v", "webm", "flv", "ts", "wmv"];
    assert(r@.map_values(|e: &str| e@) =~= seq![
        "mkv"@,
        "mp4"@,
        "avi"@,
        "mov"@,
        "m4v"@,
        "webm"@,
        "flv"@,
        "ts"@,
        "wmv"@,
    ]);
    r
}

// ---------------------------------------------------------------------------
// Modification times
// ---------------------------------------------------------------------------

/// A point in time as whole seconds since the Unix epoch and the nanoseconds
/// past them (below one second).
#[derive(Debug, Clone, Copy, PartialEq, Eq)]
pub struct FileTime {
    pub secs: i64,
    pub nanos: u32,
}

/// Nanoseconds since the epoch.
pub open spec fn total_nanos(t: FileTime) -> int {
    t.secs * 1_000_000_000 + t.nanos
}

/// Two modification times differ when the whole seconds between them (the
/// difference truncated towards zero) exceed two, that is when they lie
/// three seconds or more apart.
pub open spec fn mtime_changed(a: FileTime, b: FileTime) -> bool {
    let d = total_nanos(a) - total_nanos(b);
    d >= 3_000_000_000 || d <= -3_000_000_000
}

/// Whether a file changed does not depend on which time is the old one.
pub proof fn mtime_change_is_symmetric(a: FileTime, b: FileTime)
    ensures
        mtime_changed(a, b) == mtime_changed(b, a),
{
}

/// Whether two modification times differ by three seconds or more.
pub fn mtimes_differ(a: FileTime, b: FileTime) -> (r: bool)
    ensures
        r == mtime_changed(a, b),
{
    let d: i128 = (a.secs as i128 - b.secs as i128) * 1_000_000_000 + (a.nanos as i128
        - b.nanos as i128);
    assert(d == total_nanos(a) - total_nanos(b)) by (nonlinear_arith)
        requires
            d == (a.secs - b.secs) * 1_000_000_000 + (a.nanos - b.nanos),
    ;
    d >= 3_000_000_000 || d <= -3_000_000_000
}

// ---------------------------------------------------------------------------
// Reconciling the disk with the library
// ---------------------------------------------------------------------------

/// A media file the library already knows for the source being scanned.
pub struct KnownFile {
    pub path: String,
    pub size_bytes: u64,
    pub mtime: FileTime,
    pub availability: MediaAvailability,
}

/// A video file found on disk.
pub struct DiskFile {
    pub path: String,
    pub size_bytes: u64,
    pub mtime: FileTime,
}

/// What a scan does with a file found on disk.
#[derive(Debug, Clone, Copy, PartialEq, Eq)]
pub enum FileAction {
    /// The known media at this index changed on disk: analyze it again.
    Reanalyze { existing: usize },
    /// The known media at this index is unchanged but was unavailable: mark
    /// it available.
    MarkAvailable { existing: usize },
    /// The known media at this index is unchanged and available.
    Unchanged { existing: usize },
    /// A new file: parse, analyze, identify and record it.
    Add,
}

/// The outcome of reconciling the files on disk with the known media.
pub struct ScanPlan {
    /// One action per file on disk, in order.
    pub actions: Vec<FileAction>,
    /// Indices of known media no longer on disk, to mark unavailable
    /// (ascending).
    pub missing: Vec<usize>,
}

/// The fields of a known file that the plan reads.
pub struct KnownView {
    pub path: Seq<char>,
    pub size_bytes: u64,
    pub mtime: FileTime,
    pub available: bool,
}

/// The fields of a disk file that the plan reads.
pub struct DiskView {
    pub path: Seq<char>,
    pub size_bytes: u64,
    pub mtime: FileTime,
}

impl View for KnownFile {
    type V = KnownView;

    open spec fn view(&self) -> KnownView {
        KnownView {
            path: self.path@,
            size_bytes: self.size_bytes,
            mtime: self.mtime,
            available: self.availability is Available,
        }
    }
}

impl View for DiskFile {
    type V = DiskView;

    open spec fn view(&self) -> DiskView {
        DiskView { path: self.path@, size_bytes: self.size_bytes, mtime: self.mtime }
    }
}

/// The fields read of each known file.
pub open spec fn known_views(known: Seq<KnownFile>) -> Seq<KnownView> {
    known.map_values(|f: KnownFile| f@)
}

/// The fields read of each disk file.
pub open spec fn disk_views(disk: Seq<DiskFile>) -> Seq<DiskView> {
    disk.map_values(|f: DiskFile| f@)
}

/// Index of the last known file with path `p`: known media are looked up by
/// path, a later record with the same path replacing an earlier one.
pub open spec fn last_with_path(known: Seq<KnownView>, p: Seq<char>) -> Option<int>
    decreases known.len(),
{
    if known.len() == 0 {
        None
    } else if known.last().path == p {
        Some(known.len() - 1)
    } else {
        last_with_path(known.drop_last(), p)
    }
}

/// Whether a disk file before position `k` has path `p`.
pub open spec fn path_seen_before(disk: Seq<DiskView>, k: int, p: Seq<char>) -> bool {
    exists|j: int| 0 <= j < k && disk[j].path == p
}

/// Whether some disk file has path `p`.
pub open spec fn on_disk(disk: Seq<DiskView>, p: Seq<char>) -> bool {
    exists|j: int| 0 <= j < disk.len() && disk[j].path == p
}

/// What the scan does with the `k`-th disk file: a file whose path is known
/// (and not already taken by an earlier file) is compared with the known
/// record: changed size or a modification time three seconds or more away
/// means analyzing it again; otherwise an unavailable record is made
/// available again.  Any other file is new.
pub open spec fn action_for(known: Seq<KnownView>, disk: Seq<DiskView>, k: int) -> FileAction {
    let d = disk[k];
    match last_with_path(known, d.path) {
        Some(i) => if path_seen_before(disk, k, d.path) {
            FileAction::Add
        } else {
            let e = known[i];
            if mtime_changed(d.mtime, e.mtime) || d.size_bytes != e.size_bytes {
                FileAction::Reanalyze { existing: i as usize }
            } else if !e.available {
                FileAction::MarkAvailable { existing: i as usize }
            } else {
                FileAction::Unchanged { existing: i as usize }
            }
        },
        None => FileAction::Add,
    }
}

/// Whether the known media at index `i` is gone: it is the record kept for
/// its path and no disk file has that path.
pub open spec fn is_missing(known: Seq<KnownView>, disk: Seq<DiskView>, i: int) -> bool {
    &&& 0 <= i < known.len()
    &&& last_with_path(known, known[i].path) == Some(i)
    &&& !on_disk(disk, known[i].path)
}

/// The known index an action refers to.
pub open spec fn action_target(a: FileAction) -> Option<int> {
    match a {
        FileAction::Reanalyze { existing } => Some(existing as int),
        FileAction::MarkAvailable { existing } => Some(existing as int),
        FileAction::Unchanged { existing } => Some(existing as int),
        FileAction::Add => None,
    }
}

/// Index of the last known file with the given path.
fn find_last_with_path(known: &[KnownFile], p: &String) -> (r: Option<usize>)
    ensures
        match last_with_path(known_views(known@), p@) {
            Some(i) => r == Some(i as usize),
            None => r is None,
        },
        r matches Some(i) ==> i < known.len(),
{
    let ghost kv = known_views(known@);
    proof {
        lemma_last_with_path(kv, p@);
    }
    assert(kv.subrange(0, known.len() as int) =~= kv);
    let mut n: usize = known.len();
    while n > 0
        invariant
            n <= known.len(),
            kv == known_views(known@),
            last_with_path(kv, p@) == last_with_path(kv.subrange(0, n as int), p@),
        decreases n,
    {
        let ghost sub = kv.subrange(0, n as int);
        assert(sub.last() == kv[n - 1]);
        assert(sub.drop_last() =~= kv.subrange(0, n - 1));
        if known[n - 1].path == *p {
            return Some(n - 1);
        }
        n = n - 1;
    }
    None
}

/// Whether one of the first `k` disk files has the given path.
fn seen_before(disk: &[DiskFile], k: usize, p: &String) -> (r: bool)
    requires
        k <= disk.len(),
    ensures
        r == path_seen_before(disk_views(disk@), k as int, p@),
{
    let ghost dv = disk_views(disk@);
    let mut j: usize = 0;
    while j < k
        invariant
            j <= k <= disk.len(),
            dv == disk_views(disk@),
            forall|m: int| 0 <= m < j ==> dv[m].path != p@,
        decreases k - j,
    {
        if disk[j].path == *p {
            assert(dv[j as int].path == p@);
            return true;
        }
        j = j + 1;
    }
    false
}

impl ScanPlan {
    /// Reconciles the files found on disk with the media the library knows
    /// for the source.
    pub fn reconcile(known: &[KnownFile], disk: &[DiskFile]) -> (plan: ScanPlan)
        ensures
            plan.actions.len() == disk.len(),
            forall|k: int|
                0 <= k < disk.len() ==> plan.actions@[k] == action_for(
                    known_views(known@),
                    disk_views(disk@),
                    k,
                ),
            forall|i: int|
                0 <= i < known.len() ==> (plan.missing@.contains(i as usize) <==> #[trigger] is_missing(
                    known_views(known@),
                    disk_views(disk@),
                    i,
                )),
            forall|a: int, b: int|
                0 <= a < b < plan.missing.len() ==> plan.missing@[a] < plan.missing@[b],
            forall|a: int| 0 <= a < plan.missing.len() ==> plan.missing@[a] < known.len(),
    {
        let ghost kv = known_views(known@);
        let ghost dv = disk_views(disk@);
        let mut actions: Vec<FileAction> = Vec::new();
        let mut k: usize = 0;
        while k < disk.len()
            invariant
                k <= disk.len(),
                kv == known_views(known@),
                dv == disk_views(disk@),
                actions.len() == k,
                forall|m: int| 0 <= m < k ==> actions@[m] == action_for(kv, dv, m),
            decreases disk.len() - k,
        {
            let d = &disk[k];
            assert(dv[k as int] == d@);
            proof {
                lemma_last_with_path(kv, d.path@);
            }
            let action = match find_last_with_path(known, &d.path) {
                None => FileAction::Add,
                Some(i) => {
                    if seen_before(disk, k, &d.path) {
                        FileAction::Add
                    } else {
                        let e = &known[i];
                        assert(kv[i as int] == e@);
                        if mtimes_differ(d.mtime, e.mtime) || d.size_bytes != e.size_bytes {
                            FileAction::Reanalyze { existing: i }
                        } else {
                            match e.availability {
                                MediaAvailability::Unavailable => FileAction::MarkAvailable {
                                    existing: i,
                                },
                                MediaAvailability::Available => FileAction::Unchanged {
                                    existing: i,
                                },
                            }
                        }
                    }
                },
            };
            assert(action == action_for(kv, dv, k as int));
            actions.push(action);
            k = k + 1;
        }
        let mut missing: Vec<usize> = Vec::new();
        let mut i: usize = 0;
        while i < known.len()
            invariant
                i <= known.len(),
                kv == known_views(known@),
                dv == disk_views(disk@),
                forall|m: int|
                    0 <= m < i ==> (missing@.contains(m as usize) <==> #[trigger] is_missing(kv, dv, m)),
                forall|a: int| 0 <= a < missing.len() ==> missing@[a] < i,
                forall|a: int, b: int| 0 <= a < b < missing.len() ==> missing@[a] < missing@[b],
            decreases known.len() - i,
        {
            let p = &known[i].path;
            assert(kv[i as int].path == p@);
            proof {
                lemma_last_with_path(kv, p@);
            }
            let last = find_last_with_path(known, p);
            let gone = match last {
                Some(j) => j == i && !seen_before(disk, disk.len(), p),
                None => false,
            };
            let ghost before = missing@;
            if gone {
                missing.push(i);
            }
            proof {
                broadcast use vstd::seq_lib::group_seq_properties;

                assert(is_missing(kv, dv, i as int) == gone);
                if gone {
                    assert(missing@ == before.push(i));
                } else {
                    assert(missing@ == before);
                }
                assert(!before.contains(i)) by {
                    if before.contains(i) {
                        let a = choose|a: int| 0 <= a < before.len() && before[a] == i;
                    }
                }
            }
            i = i + 1;
        }
        ScanPlan { actions, missing }
    }
}

proof fn lemma_last_with_path(known: Seq<KnownView>, p: Seq<char>)
    ensures
        match last_with_path(known, p) {
            Some(i) => 0 <= i < known.len() && known[i].path == p && (forall|j: int|
                i < j < known.len() ==> known[j].path != p),
            None => forall|j: int| 0 <= j < known.len() ==> known[j].path != p,
        },
    decreases known.len(),
{
    if known.len() > 0 {
        let d = known.drop_last();
        lemma_last_with_path(d, p);
        assert forall|j: int| 0 <= j < d.len() implies d[j] == known[j] by {}
    }
}

proof fn lemma_first_occurrence(disk: Seq<DiskView>, p: Seq<char>, n: int)
    requires
        0 <= n <= disk.len(),
        exists|k: int| 0 <= k < n && disk[k].path == p,
    ensures
        exists|k: int| 0 <= k < n && disk[k].path == p && !path_seen_before(disk, k, p),
    decreases n,
{
    if exists|k: int| 0 <= k < n - 1 && disk[k].path == p {
        lemma_first_occurrence(disk, p, n - 1);
        let k = choose|k: int| 0 <= k < n - 1 && disk[k].path == p && !path_seen_before(disk, k, p);
        assert(0 <= k < n && disk[k].path == p && !path_seen_before(disk, k, p));
    } else {
        assert(disk[n - 1].path == p);
        assert(!path_seen_before(disk, n - 1, p));
    }
}

/// Every known record kept for its path is accounted for exactly once by a
/// scan: either exactly one file on disk is matched with it, or it is marked
/// missing, never both; records shadowed by a later one with the same path
/// are neither matched nor marked.
pub proof fn scan_accounts_for_each_known_file(
    known: Seq<KnownView>,
    disk: Seq<DiskView>,
    i: int,
)
    requires
        0 <= i < known.len(),
        known.len() <= usize::MAX,
    ensures
        last_with_path(known, known[i].path) == Some(i) ==> ((exists|k: int|
            0 <= k < disk.len() && action_target(action_for(known, disk, k)) == Some(i))
            <==> !is_missing(known, disk, i)),
        forall|k1: int, k2: int|
            0 <= k1 < disk.len() && 0 <= k2 < disk.len() && action_target(
                action_for(known, disk, k1),
            ) == Some(i) && action_target(action_for(known, disk, k2)) == Some(i) ==> k1 == k2,
        last_with_path(known, known[i].path) != Some(i) ==> !is_missing(known, disk, i)
            && forall|k: int|
            0 <= k < disk.len() ==> action_target(action_for(known, disk, k)) != Some(i),
{
    lemma_last_with_path(known, known[i].path);
    assert forall|k: int| 0 <= k < disk.len() && action_target(action_for(known, disk, k)) == Some(
        i,
    ) implies disk[k].path == known[i].path && !path_seen_before(disk, k, disk[k].path)
        && last_with_path(known, known[i].path) == Some(i) by {
        lemma_last_with_path(known, disk[k].path);
    }
    if last_with_path(known, known[i].path) == Some(i) {
        if !is_missing(known, disk, i) {
            lemma_first_occurrence(disk, known[i].path, disk.len() as int);
            let k = choose|k: int|
                0 <= k < disk.len() && disk[k].path == known[i].path && !path_seen_before(
                    disk,
                    k,
                    known[i].path,
                );
            assert(action_target(action_for(known, disk, k)) == Some(i));
        }
    }
    assert forall|k1: int, k2: int|
        0 <= k1 < disk.len() && 0 <= k2 < disk.len() && action_target(action_for(known, disk, k1))
            == Some(i) && action_target(action_for(known, disk, k2)) == Some(i) implies k1
        == k2 by {
        if k1 < k2 {
            assert(disk[k1].path == disk[k2].path);
            assert(path_seen_before(disk, k2, disk[k2].path));
        } else if k2 < k1 {
            assert(disk[k1].path == disk[k2].path);
            assert(path_seen_before(disk, k1, disk[k1].path));
        }
    }
}

/// A file found again after its record was marked unavailable (a drive
/// reconnected), with the same size and a modification time less than three
/// seconds away, is made available again without being analyzed anew.
pub proof fn reconnected_file_is_made_available(
    known: Seq<KnownView>,
    disk: Seq<DiskView>,
    k: int,
    i: int,
)
    requires
        0 <= k < disk.len(),
        known.len() <= usize::MAX,
        last_with_path(known, disk[k].path) == Some(i),
        !path_seen_before(disk, k, disk[k].path),
        !known[i].available,
        known[i].size_bytes == disk[k].size_bytes,
        !mtime_changed(disk[k].mtime, known[i].mtime),
    ensures
        action_for(known, disk, k) == (FileAction::MarkAvailable { existing: i as usize }),
{
}

/// A file found again with another size, or with a modification time three
/// seconds or more away, is analyzed again.
pub proof fn changed_file_is_reanalyzed(known: Seq<KnownView>, disk: Seq<DiskView>, k: int, i: int)
    requires
        0 <= k < disk.len(),
        last_with_path(known, disk[k].path) == Some(i),
        !path_seen_before(disk, k, disk[k].path),
        known[i].size_bytes != disk[k].size_bytes || mtime_changed(disk[k].mtime, known[i].mtime),
    ensures
        action_for(known, disk, k) == (FileAction::Reanalyze { existing: i as usize }),
{
}

// ---------------------------------------------------------------------------
// Records created for new episodes
// ---------------------------------------------------------------------------

/// The name given to a season created by a scan.
pub open spec fn season_name(n: u32) -> Seq<char> {
    "Season "@ + decimal_seq(n as nat)
}

/// The title given to an episode that no metadata service described.
pub open spec fn episode_placeholder_title(n: u32) -> Seq<char> {
    "Episode "@ + decimal_seq(n as nat)
}

/// The provider id recorded for a series found on TMDB.
pub open spec fn tmdb_provider_id(id: i64) -> Seq<char> {
    "tmdb-"@ + signed_decimal_seq(id as int)
}

/// `Season N`.
pub fn season_name_for(n: u32) -> (r: String)
    ensures
        r@ == season_name(n),
{
    let mut text: Vec<char> = Vec::new();
    push_str_chars(&mut text, "Season ");
    push_decimal(&mut text, n as u64);
    string_of(text.as_slice())
}

/// `Episode N`.
pub fn episode_placeholder_for(n: u32) -> (r: String)
    ensures
        r@ == episode_placeholder_title(n),
{
    let mut text: Vec<char> = Vec::new();
    push_str_chars(&mut text, "Episode ");
    push_decimal(&mut text, n as u64);
    string_of(text.as_slice())
}

/// `tmdb-ID`.
pub fn tmdb_provider_id_for(id: i64) -> (r: String)
    ensures
        r@ == tmdb_provider_id(id),
{
    let mut text: Vec<char> = Vec::new();
    push_str_chars(&mut text, "tmdb-");
    push_signed_decimal(&mut text, id);
    let r = string_of(text.as_slice());
    assert(r@ =~= tmdb_provider_id(id));
    r
}

/// Index of the first entry equal to `n` (seasons and episodes are found by
/// their number).
pub fn find_number(numbers: &[u32], n: u32) -> (r: Option<usize>)
    ensures
        match r {
            Some(i) => i < numbers.len() && numbers@[i as int] == n && forall|j: int|
                0 <= j < i ==> numbers@[j] != n,
            None => forall|j: int| 0 <= j < numbers.len() ==> numbers@[j] != n,
        },
{
    let mut i: usize = 0;
    while i < numbers.len()
        invariant
            i <= numbers.len(),
            forall|j: int| 0 <= j < i ==> numbers@[j] != n,
        decreases numbers.len() - i,
    {
        if numbers[i] == n {
            return Some(i);
        }
        i = i + 1;
    }
    None
}

/// Where the episode after `(season, episode)` is looked for, in order: the
/// next episode of the same season, then the first episode of the next
/// season.
pub fn next_episode_lookups(season_number: u32, episode_number: u32) -> (r: [(u32, u32); 2])
    requires
        season_number < u32::MAX,
        episode_number < u32::MAX,
    ensures
        r[0] == (season_number, (episode_number + 1) as u32),
        r[1] == ((season_number + 1) as u32, 1u32),
{
    [(season_number, episode_number + 1), (season_number + 1, 1)]
}

/// The top result of a TMDB series search (its rating aside).
pub struct SeriesHit {
    pub id: i64,
    pub name: String,
    pub overview: Option<String>,
    pub poster_path: Option<String>,
    pub backdrop_path: Option<String>,
}

/// A series record created by a scan (its ids, rating and timestamps aside).
pub struct SeriesDraft {
    pub tmdb_id: Option<i64>,
    pub title: String,
    pub year: Option<u16>,
    pub description: Option<String>,
    pub poster_path: Option<String>,
    pub backdrop_path: Option<String>,
    pub genres: Vec<String>,
    pub metadata_provider_id: Option<String>,
    pub metadata_status: MetadataStatus,
}

impl SeriesDraft {
    /// The series record for a title found in file names: described by the
    /// top TMDB result when there is one (filed under `Drama`), otherwise
    /// just the title, unmatched.
    pub fn new(series_title: &str, year: Option<u16>, top: Option<SeriesHit>) -> (r: SeriesDraft)
        ensures
            r.year == year,
            match top {
                Some(h) => {
                    &&& r.tmdb_id == Some(h.id)
                    &&& r.title == h.name
                    &&& r.description == h.overview
                    &&& r.poster_path == h.poster_path
                    &&& r.backdrop_path == h.backdrop_path
                    &&& r.genres@.len() == 1 && r.genres@[0]@ == "Drama"@
                    &&& r.metadata_provider_id matches Some(p) && p@ == tmdb_provider_id(h.id)
                    &&& r.metadata_status == MetadataStatus::AutoMatched
                },
                None => {
                    &&& r.tmdb_id is None
                    &&& r.title@ == series_title@
                    &&& r.description is None
                    &&& r.poster_path is None
                    &&& r.backdrop_path is None
                    &&& r.genres@.len() == 0
                    &&& r.metadata_provider_id is None
                    &&& r.metadata_status == MetadataStatus::Unmatched
                },
            },
    {
        match top {
            Some(h) => {
                let provider_id = tmdb_provider_id_for(h.id);
                let mut genres: Vec<String> = Vec::new();
                genres.push(owned("Drama"));
                SeriesDraft {
                    tmdb_id: Some(h.id),
                    title: h.name,
                    year,
                    description: h.overview,
                    poster_path: h.poster_path,
                    backdrop_path: h.backdrop_path,
                    genres,
                    metadata_provider_id: Some(provider_id),
                    metadata_status: MetadataStatus::AutoMatched,
                }
            },
            None => SeriesDraft {
                tmdb_id: None,
                title: owned(series_title),
                year,
                description: None,
                poster_path: None,
                backdrop_path: None,
                genres: Vec::new(),
                metadata_provider_id: None,
                metadata_status: MetadataStatus::Unmatched,
            },
        }
    }
}

/// An episode as TMDB lists it (its rating aside).
pub struct EpisodeHit {
    pub name: String,
    pub overview: Option<String>,
    pub still_path: Option<String>,
    pub air_date: Option<String>,
}

/// The descriptive fields of an episode created by a scan.
pub struct EpisodeDraft {
    pub title: String,
    pub overview: Option<String>,
    pub still_path: Option<String>,
    pub air_date: Option<String>,
}

impl EpisodeDraft {
    /// The fields of episode `n`: from TMDB's listing when it has that
    /// episode, otherwise titled `Episode N` with nothing else.
    pub fn new(episode_number: u32, found: Option<EpisodeHit>) -> (r: EpisodeDraft)
        ensures
            match found {
                Some(h) => r.title == h.name && r.overview == h.overview && r.still_path
                    == h.still_path && r.air_date == h.air_date,
                None => r.title@ == episode_placeholder_title(episode_number) && r.overview is None
                    && r.still_path is None && r.air_date is None,
            },
    {
        match found {
            Some(h) => EpisodeDraft {
                title: h.name,
                overview: h.overview,
                still_path: h.still_path,
                air_date: h.air_date,
            },
            None => EpisodeDraft {
                title: episode_placeholder_for(episode_number),
                overview: None,
                still_path: None,
                air_date: None,
            },
        }
    }
}

} // verus!
