//! The directory scanner: which entries of a directory listing are firmware
//! images, and in which order they are handed on.

use crate::text::{ends_with, has_suffix};
use vstd::prelude::*;
use vstd::string::StrSliceExecFns;
use vstd::string::StringExecFns;

verus! {

/// The extension that marks a file as a firmware image.
pub const FILE_EXTENSION: &'static str = "uf2";

/// The creation time given to a file whose own creation time is unknown:
/// the oldest time there is.
pub const EPOCH: u128 = 0;

/// One entry of a directory listing, as the caller found it.
///
/// `created` is the time of creation, counted from the epoch in a unit of
/// the caller's choice; `None` says that the time could not be determined.
#[derive(Debug, PartialEq, Eq)]
pub struct ListedEntry {
    pub path: String,
    pub file_name: String,
    pub is_file: bool,
    pub created: Option<u128>,
}

/// A candidate firmware image.
#[derive(Debug, PartialEq, Eq)]
pub struct FirmwareFile {
    pub path: String,
    pub file_name: String,
    pub created: u128,
}

/// What a [`ListedEntry`] stands for.
pub struct ListedEntryView {
    pub path: Seq<char>,
    pub file_name: Seq<char>,
    pub is_file: bool,
    pub created: Option<u128>,
}

/// What a [`FirmwareFile`] stands for.
pub struct FirmwareFileView {
    pub path: Seq<char>,
    pub file_name: Seq<char>,
    pub created: u128,
}

impl View for ListedEntry {
    type V = ListedEntryView;

    open spec fn view(&self) -> ListedEntryView {
        ListedEntryView {
            path: self.path@,
            file_name: self.file_name@,
            is_file: self.is_file,
            created: self.created,
        }
    }
}

impl View for FirmwareFile {
    type V = FirmwareFileView;

    open spec fn view(&self) -> FirmwareFileView {
        FirmwareFileView { path: self.path@, file_name: self.file_name@, created: self.created }
    }
}

impl Clone for FirmwareFile {
    fn clone(&self) -> (r: Self)
        ensures
            r@ == self@,
    {
        FirmwareFile {
            path: self.path.clone(),
            file_name: self.file_name.clone(),
            created: self.created,
        }
    }
}

/// The views of a run of listed entries.
pub open spec fn entry_views(entries: Seq<ListedEntry>) -> Seq<ListedEntryView> {
    entries.map_values(|e: ListedEntry| e@)
}

/// The views of a run of firmware files.
pub open spec fn file_views(files: Seq<FirmwareFile>) -> Seq<FirmwareFileView> {
    files.map_values(|f: FirmwareFile| f@)
}

/// A file name carries the firmware extension: it ends with a dot and the
/// extension, and something stands before that dot.
pub open spec fn is_firmware_name(name: Seq<char>) -> bool {
    &&& has_suffix(name, seq!['.'] + FILE_EXTENSION@)
    &&& name.len() > FILE_EXTENSION@.len() + 1
}

/// An entry is a candidate when it is a regular file with the firmware
/// extension.
pub open spec fn is_candidate(entry: ListedEntryView) -> bool {
    entry.is_file && is_firmware_name(entry.file_name)
}

/// The firmware file that a listed entry becomes.
pub open spec fn as_firmware_file(entry: ListedEntryView) -> FirmwareFileView {
    FirmwareFileView {
        path: entry.path,
        file_name: entry.file_name,
        created: match entry.created {
            Some(t) => t,
            None => EPOCH,
        },
    }
}

/// The test "is a candidate".
pub open spec fn candidate_test() -> spec_fn(ListedEntryView) -> bool {
    |e: ListedEntryView| is_candidate(e)
}

/// The candidates among `entries`, in listing order.
pub open spec fn candidates(entries: Seq<ListedEntryView>) -> Seq<FirmwareFileView> {
    entries.filter(candidate_test()).map_values(|e: ListedEntryView| as_firmware_file(e))
}

/// No file stands before a file that was created later.
pub open spec fn newest_first(files: Seq<FirmwareFileView>) -> bool {
    forall|i: int, j: int| 0 <= i < j < files.len() ==> files[i].created >= files[j].created
}

/// The test "was created at `t`".
pub open spec fn created_at(t: u128) -> spec_fn(FirmwareFileView) -> bool {
    |f: FirmwareFileView| f.created == t
}

/// `sorted` holds the files of `files`, newest first, and files of one
/// creation time stand in the order that they have in `files`.
pub open spec fn is_stable_sort(
    sorted: Seq<FirmwareFileView>,
    files: Seq<FirmwareFileView>,
) -> bool {
    &&& newest_first(sorted)
    &&& forall|t: u128| #[trigger] sorted.filter(created_at(t)) == files.filter(created_at(t))
}

/// Tests whether a file name carries the firmware extension.
pub fn has_firmware_extension(file_name: &str) -> (r: bool)
    ensures
        r == is_firmware_name(file_name@),
{
    let mut dotted = String::from_str(".");
    dotted.append(FILE_EXTENSION);
    proof {
        reveal_strlit(".");
        assert("."@ =~= seq!['.']);
    }
    let long_enough: bool = file_name.unicode_len() > dotted.as_str().unicode_len();
    long_enough && ends_with(file_name, dotted.as_str())
}

/// Turns a listed entry into the firmware file that it stands for.
pub fn to_firmware_file(entry: &ListedEntry) -> (r: FirmwareFile)
    ensures
        r@ == as_firmware_file(entry@),
{
    FirmwareFile {
        path: entry.path.clone(),
        file_name: entry.file_name.clone(),
        created: match entry.created {
            Some(t) => t,
            None => EPOCH,
        },
    }
}

/// Picks the candidates out of a directory listing, keeping their order.
pub fn collect_candidates(entries: &Vec<ListedEntry>) -> (r: Vec<FirmwareFile>)
    ensures
        file_views(r@) == candidates(entry_views(entries@)),
{
    let mut out: Vec<FirmwareFile> = Vec::new();
    let mut i: usize = 0;
    assert(entry_views(entries@).take(0) =~= Seq::empty());
    assert(file_views(out@) =~= candidates(Seq::empty())) by {
        reveal(Seq::filter);
    }
    while i < entries.len()
        invariant
            i <= entries.len(),
            file_views(out@) == candidates(entry_views(entries@).take(i as int)),
        decreases entries.len() - i,
    {
        let entry = &entries[i];
        let ghost seen = entry_views(entries@).take(i as int);
        proof {
            assert(entry_views(entries@).take(i as int + 1) =~= seen.push(entry@));
            seen.lemma_filter_push(entry@, candidate_test());
        }
        if entry.is_file && has_firmware_extension(entry.file_name.as_str()) {
            let file = to_firmware_file(entry);
            proof {
                let kept = seen.filter(candidate_test());
                let convert = |e: ListedEntryView| as_firmware_file(e);
                assert(candidate_test()(entry@));
                assert(seen.push(entry@).filter(candidate_test()) == kept.push(entry@));
                assert(kept.push(entry@).map_values(convert) =~= kept.map_values(convert).push(
                    file@,
                ));
                assert(file_views(out@.push(file)) =~= file_views(out@).push(file@));
            }
            out.push(file);
        }
        i += 1;
    }
    assert(entry_views(entries@).take(entries.len() as int) =~= entry_views(entries@));
    out
}

/// A filter that no element passes leaves nothing.
proof fn lemma_filter_none(files: Seq<FirmwareFileView>, t: u128)
    requires
        forall|i: int| 0 <= i < files.len() ==> files[i].created != t,
    ensures
        files.filter(created_at(t)) == Seq::<FirmwareFileView>::empty(),
    decreases files.len(),
{
    reveal(Seq::filter);
    if files.len() > 0 {
        lemma_filter_none(files.drop_last(), t);
    }
}

/// Puts `file` into a list that is sorted newest first: behind every file
/// that is as new or newer, before every older one.
pub fn insert_newest_first(files: &mut Vec<FirmwareFile>, file: FirmwareFile)
    requires
        newest_first(file_views(old(files)@)),
    ensures
        is_stable_sort(file_views(final(files)@), file_views(old(files)@).push(file@)),
{
    let mut at: usize = 0;
    while at < files.len() && files[at].created >= file.created
        invariant
            at <= files.len(),
            forall|k: int| 0 <= k < at ==> files@[k].created >= file.created,
        decreases files.len() - at,
    {
        at += 1;
    }
    let ghost before = file_views(files@);
    let ghost head = before.take(at as int);
    let ghost tail = before.skip(at as int);
    let ghost one = seq![file@];
    files.insert(at, file);
    proof {
        let after = file_views(files@);
        assert(after =~= head + one + tail);
        assert(before =~= head + tail);
        assert(before.push(file@) =~= before + one);
        assert forall|i: int, j: int| 0 <= i < j < after.len() implies after[i].created
            >= after[j].created by {
            if i < at && j > at {
                assert(before[i].created >= before[j - 1].created);
            } else if i == at {
                assert(before[at as int].created >= before[j - 1].created);
            }
        }
        assert forall|t: u128| #[trigger]
            after.filter(created_at(t)) == before.push(file@).filter(created_at(t)) by {
            let p = created_at(t);
            Seq::filter_distributes_over_add(head + one, tail, p);
            Seq::filter_distributes_over_add(head, one, p);
            Seq::filter_distributes_over_add(head, tail, p);
            Seq::filter_distributes_over_add(before, one, p);
            if t == file.created {
                assert forall|i: int| 0 <= i < tail.len() implies tail[i].created != t by {
                    assert(before[at as int].created >= before[at + i].created);
                }
                lemma_filter_none(tail, t);
                assert(after.filter(p) =~= before.push(file@).filter(p));
            } else {
                lemma_filter_none(one, t);
                assert(after.filter(p) =~= before.push(file@).filter(p));
            }
        }
    }
}

/// Sorts firmware files by creation time, newest first. Files of one
/// creation time keep the order in which they came.
pub fn sort_newest_first(files: &Vec<FirmwareFile>) -> (r: Vec<FirmwareFile>)
    ensures
        is_stable_sort(file_views(r@), file_views(files@)),
{
    let mut out: Vec<FirmwareFile> = Vec::new();
    let mut i: usize = 0;
    assert(file_views(files@).take(0) =~= file_views(out@));
    while i < files.len()
        invariant
            i <= files.len(),
            is_stable_sort(file_views(out@), file_views(files@).take(i as int)),
        decreases files.len() - i,
    {
        let ghost seen = file_views(files@).take(i as int);
        let ghost sorted = file_views(out@);
        let file = files[i].clone();
        insert_newest_first(&mut out, file);
        proof {
            let next = file_views(files@).take(i as int + 1);
            assert(next =~= seen.push(file@));
            assert forall|t: u128| #[trigger]
                file_views(out@).filter(created_at(t)) == next.filter(created_at(t)) by {
                let p = created_at(t);
                assert(sorted.filter(p) == seen.filter(p));
                sorted.lemma_filter_push(file@, p);
                seen.lemma_filter_push(file@, p);
            }
        }
        i += 1;
    }
    assert(file_views(files@).take(files.len() as int) =~= file_views(files@));
    out
}

/// Scans a directory listing: keeps the regular files that carry the
/// firmware extension and orders them newest first. An entry without a
/// creation time counts as created at [`EPOCH`]; entries of one creation
/// time keep their listing order.
pub fn scan(entries: &Vec<ListedEntry>) -> (r: Vec<FirmwareFile>)
    ensures
        is_stable_sort(file_views(r@), candidates(entry_views(entries@))),
        file_views(r@).to_multiset() == candidates(entry_views(entries@)).to_multiset(),
        r.len() == candidates(entry_views(entries@)).len(),
{
    let found = collect_candidates(entries);
    let sorted = sort_newest_first(&found);
    proof {
        lemma_sort_keeps_files(file_views(sorted@), file_views(found@));
    }
    sorted
}

/// Filtering by creation time neither loses nor doubles a file that was
/// created at that time.
proof fn lemma_filter_keeps_count(files: Seq<FirmwareFileView>, file: FirmwareFileView)
    ensures
        files.filter(created_at(file.created)).to_multiset().count(file)
            == files.to_multiset().count(file),
    decreases files.len(),
{
    let p = created_at(file.created);
    if files.len() == 0 {
        reveal(Seq::filter);
    } else {
        let rest = files.drop_last();
        let last = files.last();
        assert(files =~= rest.push(last));
        lemma_filter_keeps_count(rest, file);
        rest.lemma_filter_push(last, p);
        vstd::seq_lib::to_multiset_build(rest, last);
        if p(last) {
            vstd::seq_lib::to_multiset_build(rest.filter(p), last);
        }
    }
}

/// Sorting keeps exactly the files that there are: each file is in the
/// sorted list as often as in the list that was sorted.
pub proof fn lemma_sort_keeps_files(sorted: Seq<FirmwareFileView>, files: Seq<FirmwareFileView>)
    requires
        is_stable_sort(sorted, files),
    ensures
        sorted.to_multiset() == files.to_multiset(),
        sorted.len() == files.len(),
{
    assert forall|file: FirmwareFileView|
        sorted.to_multiset().count(file) == files.to_multiset().count(file) by {
        lemma_filter_keeps_count(sorted, file);
        lemma_filter_keeps_count(files, file);
        assert(sorted.filter(created_at(file.created)) == files.filter(created_at(file.created)));
    }
    assert(sorted.to_multiset() =~= files.to_multiset());
    vstd::seq_lib::to_multiset_len(sorted);
    vstd::seq_lib::to_multiset_len(files);
}

/// Files without a known creation time stand last: in a list that is sorted
/// newest first, a file that counts as created at [`EPOCH`] is followed only
/// by such files.
pub proof fn lemma_unknown_time_sorts_last(files: Seq<FirmwareFileView>, i: int, j: int)
    requires
        newest_first(files),
        0 <= i <= j < files.len(),
        files[i].created == EPOCH,
    ensures
        files[j].created == EPOCH,
{
}

/// The order is fully determined: two lists that both are a stable sort of
/// the same files are the same list.
pub proof fn lemma_sort_is_determined(
    a: Seq<FirmwareFileView>,
    b: Seq<FirmwareFileView>,
    files: Seq<FirmwareFileView>,
)
    requires
        is_stable_sort(a, files),
        is_stable_sort(b, files),
    ensures
        a == b,
    decreases a.len(),
{
    lemma_sort_keeps_files(a, files);
    lemma_sort_keeps_files(b, files);
    if a.len() == 0 {
        assert(a =~= b);
    } else {
        let ta = a.last().created;
        let tb = b.last().created;
        let a0 = a.drop_last();
        let b0 = b.drop_last();
        assert(a =~= a0.push(a.last()));
        assert(b =~= b0.push(b.last()));
        // the last file of each list is as old as any file of the other
        assert(ta == tb) by {
            a0.lemma_filter_push(a.last(), created_at(ta));
            b0.lemma_filter_push(b.last(), created_at(tb));
            assert(a.filter(created_at(ta)) == b.filter(created_at(ta)));
            assert(a.filter(created_at(tb)) == b.filter(created_at(tb)));
            let in_b = b.filter(created_at(ta));
            assert(in_b.len() > 0);
            b.lemma_filter_contains_rev(created_at(ta), in_b[0]);
            b.lemma_filter_pred(created_at(ta), 0);
            let kb = choose|k: int| 0 <= k < b.len() && b[k] == in_b[0];
            assert(b[kb].created >= tb);
            let in_a = a.filter(created_at(tb));
            assert(in_a.len() > 0);
            a.lemma_filter_contains_rev(created_at(tb), in_a[0]);
            a.lemma_filter_pred(created_at(tb), 0);
            let ka = choose|k: int| 0 <= k < a.len() && a[k] == in_a[0];
            assert(a[ka].created >= ta);
        }
        assert forall|t: u128| #[trigger]
            a0.filter(created_at(t)) == b0.filter(created_at(t)) by {
            let p = created_at(t);
            a0.lemma_filter_push(a.last(), p);
            b0.lemma_filter_push(b.last(), p);
            assert(a.filter(p) == b.filter(p));
            if t == ta {
                assert(a0.filter(p) =~= a.filter(p).drop_last());
                assert(b0.filter(p) =~= b.filter(p).drop_last());
            }
        }
        assert(a.last() == b.last()) by {
            let p = created_at(ta);
            a0.lemma_filter_push(a.last(), p);
            b0.lemma_filter_push(b.last(), p);
            assert(a.filter(p) == b.filter(p));
            assert(a.filter(p).last() == a.last());
            assert(b.filter(p).last() == b.last());
        }
        assert(newest_first(a0)) by {
            assert forall|i: int, j: int| 0 <= i < j < a0.len() implies a0[i].created
                >= a0[j].created by {
                assert(a[i].created >= a[j].created);
            }
        }
        assert(newest_first(b0)) by {
            assert forall|i: int, j: int| 0 <= i < j < b0.len() implies b0[i].created
                >= b0[j].created by {
                assert(b[i].created >= b[j].created);
            }
        }
        lemma_sort_is_determined(a0, b0, b0);
    }
}

} // verus!
