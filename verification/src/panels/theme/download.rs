//! One admitted download owns the progress until all that ends it is done. What the
//! popup shows of it is a copy.

use crate::doc::{message, Arg, ArgV, Color, Piece, Style};
use crate::json::{parse_json, parsed, str_field, values_view, Json, JsonV};
use crate::notification::{NoticeV, Notification};
use crate::text::{cat, ends_with, ends_with_spec, text_views};
use vstd::prelude::*;

verus! {

/// How far the download of a file has come.
#[derive(Debug)]
pub enum FileDownloadStatus {
    Pending,
    Downloading,
    Done,
    Failed(String),
}

/// A file of the download.
#[derive(Debug)]
pub struct DownloadItem {
    pub filename: String,
    pub status: FileDownloadStatus,
}

/// The progress of a download.
#[derive(Debug)]
pub struct DownloadProgressPayload {
    pub items: Vec<DownloadItem>,
    pub success_count: usize,
    pub fail_count: usize,
    pub finished: bool,
}

/// How far the download of a file has come, abstractly.
pub enum StatusV {
    Pending,
    Downloading,
    Done,
    Failed(Seq<char>),
}

/// A file of the download, abstractly.
pub struct ItemV {
    pub filename: Seq<char>,
    pub status: StatusV,
}

/// The progress of a download, abstractly.
pub struct ProgressV {
    pub items: Seq<ItemV>,
    pub success: int,
    pub failed: int,
    pub finished: bool,
}

impl View for FileDownloadStatus {
    type V = StatusV;

    open spec fn view(&self) -> StatusV {
        match *self {
            FileDownloadStatus::Pending => StatusV::Pending,
            FileDownloadStatus::Downloading => StatusV::Downloading,
            FileDownloadStatus::Done => StatusV::Done,
            FileDownloadStatus::Failed(e) => StatusV::Failed(e@),
        }
    }
}

impl View for DownloadItem {
    type V = ItemV;

    open spec fn view(&self) -> ItemV {
        ItemV { filename: self.filename@, status: self.status@ }
    }
}

/// The files of a list.
pub open spec fn items_view(v: Seq<DownloadItem>) -> Seq<ItemV> {
    v.map_values(|i: DownloadItem| i@)
}

impl View for DownloadProgressPayload {
    type V = ProgressV;

    open spec fn view(&self) -> ProgressV {
        ProgressV {
            items: items_view(self.items@),
            success: self.success_count as int,
            failed: self.fail_count as int,
            finished: self.finished,
        }
    }
}

impl ProgressV {
    /// Nothing listed yet.
    pub open spec fn fresh() -> ProgressV {
        ProgressV { items: Seq::empty(), success: 0, failed: 0, finished: false }
    }

    /// The files are known, none is begun.
    pub open spec fn listed(self, filenames: Seq<Seq<char>>) -> ProgressV {
        ProgressV {
            items: filenames.map_values(
                |f: Seq<char>| ItemV { filename: f, status: StatusV::Pending },
            ),
            ..self
        }
    }

    /// A file has another status.
    pub open spec fn with_status(self, i: int, status: StatusV) -> ProgressV {
        ProgressV { items: self.items.update(i, ItemV { status, ..self.items[i] }), ..self }
    }

    /// A file is done or has failed.
    pub open spec fn recorded(self, i: int, error: Option<Seq<char>>) -> ProgressV {
        match error {
            None => ProgressV { success: self.success + 1, ..self.with_status(i, StatusV::Done) },
            Some(e) => ProgressV {
                failed: self.failed + 1,
                ..self.with_status(i, StatusV::Failed(e))
            },
        }
    }

    /// The download has ended. Where it broke off, the files that were not settled have
    /// failed, and at least one failure is counted.
    pub open spec fn ended(self, error: Option<Seq<char>>) -> ProgressV {
        match error {
            None => ProgressV { finished: true, ..self },
            Some(e) => ProgressV {
                items: self.items.map_values(|i: ItemV| settled(i, e)),
                failed: self.failed + (if unsettled_count(self.items) == 0 {
                    1
                } else {
                    unsettled_count(self.items) as int
                }),
                finished: true,
                ..self
            },
        }
    }
}

/// A file that is neither done nor failed.
pub open spec fn unsettled(i: ItemV) -> bool {
    i.status is Pending || i.status is Downloading
}

/// The file, failed if it was not settled.
pub open spec fn settled(i: ItemV, error: Seq<char>) -> ItemV {
    if unsettled(i) {
        ItemV { status: StatusV::Failed(error), ..i }
    } else {
        i
    }
}

/// The number of files that are not settled.
pub open spec fn unsettled_count(items: Seq<ItemV>) -> nat
    decreases items.len(),
{
    if items.len() == 0 {
        0
    } else {
        unsettled_count(items.drop_last()) + (if unsettled(items.last()) {
            1nat
        } else {
            0nat
        })
    }
}

/// The number of files that are done.
pub open spec fn done_count(items: Seq<ItemV>) -> nat
    decreases items.len(),
{
    if items.len() == 0 {
        0
    } else {
        done_count(items.drop_last()) + (if items.last().status is Done {
            1nat
        } else {
            0nat
        })
    }
}

/// The number of files that have failed.
pub open spec fn failed_count(items: Seq<ItemV>) -> nat
    decreases items.len(),
{
    if items.len() == 0 {
        0
    } else {
        failed_count(items.drop_last()) + (if items.last().status is Failed {
            1nat
        } else {
            0nat
        })
    }
}

/// The counters agree with the files.
pub open spec fn counts_agree(p: ProgressV) -> bool {
    p.success == done_count(p.items) && p.failed == failed_count(p.items)
}

proof fn every_file_is_counted(items: Seq<ItemV>)
    ensures
        done_count(items) + failed_count(items) + unsettled_count(items) == items.len(),
    decreases items.len(),
{
    if items.len() > 0 {
        every_file_is_counted(items.drop_last());
    }
}

proof fn counts_of_update(items: Seq<ItemV>, i: int, to: ItemV)
    requires
        0 <= i < items.len(),
    ensures
        done_count(items.update(i, to)) == done_count(items) - (if items[i].status is Done {
            1int
        } else {
            0
        }) + (if to.status is Done {
            1int
        } else {
            0
        }),
        failed_count(items.update(i, to)) == failed_count(items) - (if items[i].status is Failed {
            1int
        } else {
            0
        }) + (if to.status is Failed {
            1int
        } else {
            0
        }),
    decreases items.len(),
{
    let after = items.update(i, to);
    if i == items.len() - 1 {
        assert(after.drop_last() =~= items.drop_last());
    } else {
        assert(after.drop_last() =~= items.drop_last().update(i, to));
        counts_of_update(items.drop_last(), i, to);
    }
}

proof fn counts_of_settled(items: Seq<ItemV>, e: Seq<char>)
    ensures
        ({
            let after = items.map_values(|i: ItemV| settled(i, e));
            &&& done_count(after) == done_count(items)
            &&& failed_count(after) == failed_count(items) + unsettled_count(items)
            &&& unsettled_count(after) == 0
        }),
    decreases items.len(),
{
    let after = items.map_values(|i: ItemV| settled(i, e));
    if items.len() > 0 {
        assert(after.drop_last() =~= items.drop_last().map_values(|i: ItemV| settled(i, e)));
        counts_of_settled(items.drop_last(), e);
    }
}

proof fn counts_of_fresh_files(items: Seq<ItemV>)
    requires
        forall|i: int| 0 <= i < items.len() ==> items[i].status is Pending,
    ensures
        done_count(items) == 0,
        failed_count(items) == 0,
    decreases items.len(),
{
    if items.len() > 0 {
        counts_of_fresh_files(items.drop_last());
    }
}

/// The counters agree with the files when the files become known, and stay so with
/// each file that is begun and settled.
pub proof fn counters_follow_the_files(
    p: ProgressV,
    filenames: Seq<Seq<char>>,
    i: int,
    error: Option<Seq<char>>,
)
    ensures
        p.success == 0 && p.failed == 0 ==> counts_agree(p.listed(filenames)),
        counts_agree(p) && 0 <= i < p.items.len() && unsettled(p.items[i]) ==> counts_agree(
            p.with_status(i, StatusV::Downloading),
        ) && counts_agree(p.recorded(i, error)),
{
    counts_of_fresh_files(p.listed(filenames).items);
    if 0 <= i < p.items.len() {
        counts_of_update(p.items, i, ItemV { status: StatusV::Downloading, ..p.items[i] });
        counts_of_update(p.items, i, ItemV { status: StatusV::Done, ..p.items[i] });
        match error {
            Some(e) => {
                counts_of_update(p.items, i, ItemV { status: StatusV::Failed(e), ..p.items[i] });
            },
            None => {},
        }
    }
}

/// A download that broke off leaves no file unsettled, counts a failure, and every file
/// as done or failed.
pub proof fn breaking_off_settles_all(p: ProgressV, error: Seq<char>)
    requires
        counts_agree(p),
    ensures
        ({
            let after = p.ended(Some(error));
            &&& after.finished
            &&& unsettled_count(after.items) == 0
            &&& after.failed > p.failed
            &&& after.success + after.failed == p.items.len() + (if unsettled_count(p.items) == 0 {
                1int
            } else {
                0
            })
        }),
{
    counts_of_settled(p.items, error);
    every_file_is_counted(p.items);
}

/// What a listing names: the files that end in `.json`.
pub open spec fn listed_names(entries: Seq<JsonV>) -> Seq<Seq<char>>
    decreases entries.len(),
{
    if entries.len() == 0 {
        Seq::empty()
    } else {
        let rest = listed_names(entries.drop_last());
        match str_field(entries.last(), "name"@) {
            Some(n) => if ends_with_spec(n, ".json"@) {
                rest.push(n)
            } else {
                rest
            },
            None => rest,
        }
    }
}

/// The files that a listing names, nothing where it is not a list.
pub open spec fn listing_of(v: Option<JsonV>) -> Option<Seq<Seq<char>>> {
    match v {
        Some(JsonV::Array(entries)) => Some(listed_names(entries)),
        _ => None,
    }
}

fn names_in(entries: &Vec<Json>) -> (r: Vec<String>)
    ensures
        text_views(r@) == listed_names(values_view(entries@)),
{
    let ghost all = values_view(entries@);
    let mut r: Vec<String> = Vec::new();
    let mut i: usize = 0;
    assert(text_views(r@) =~= listed_names(all.take(0)));
    while i < entries.len()
        invariant
            i <= entries@.len(),
            all == values_view(entries@),
            text_views(r@) == listed_names(all.take(i as int)),
        decreases entries.len() - i,
    {
        let ghost before = text_views(r@);
        assert(all[i as int] == entries@[i as int]@);
        assert(all.take(i + 1).drop_last() =~= all.take(i as int));
        match entries[i].get_str("name") {
            Some(n) => {
                if ends_with(n, ".json") {
                    r.push(n.to_owned());
                    assert(text_views(r@) =~= before.push(n@));
                }
            },
            None => {},
        }
        i = i + 1;
    }
    assert(all.take(i as int) =~= all);
    r
}

/// The files that the text of a listing names; nothing where it is no list.
pub fn theme_files(body: &str) -> (r: Option<Vec<String>>)
    ensures
        match r {
            Some(names) => listing_of(parsed(body@)) == Some(text_views(names@)),
            None => listing_of(parsed(body@)) is None,
        },
{
    match parse_json(body) {
        Some(v) => theme_files_of(&v),
        None => None,
    }
}

/// The files that a listing names; nothing where it is no list.
pub fn theme_files_of(listing: &Json) -> (r: Option<Vec<String>>)
    ensures
        match r {
            Some(names) => listing_of(Some(listing@)) == Some(text_views(names@)),
            None => listing_of(Some(listing@)) is None,
        },
{
    match listing.as_array() {
        Some(entries) => Some(names_in(entries)),
        None => None,
    }
}

impl Default for DownloadProgressPayload {
    fn default() -> (p: DownloadProgressPayload)
        ensures
            p@ == ProgressV::fresh(),
    {
        let p = DownloadProgressPayload {
            items: Vec::new(),
            success_count: 0,
            fail_count: 0,
            finished: false,
        };
        assert(p@.items =~= Seq::empty());
        p
    }
}

/// A download that was admitted. There is one at a time: it holds the flag until it is
/// released.
#[derive(Debug)]
pub struct DownloadRun {
    pub progress: DownloadProgressPayload,
    pub settled: bool,
}

/// The note at the end of a download.
pub open spec fn finished_note(p: ProgressV) -> NoticeV {
    NoticeV {
        message: message(
            "popup-download-finished-notify"@,
            seq![
                ("total"@, ArgV::Number(p.items.len())),
                ("success"@, ArgV::Number(p.success as nat)),
                ("failed"@, ArgV::Number(p.failed as nat)),
            ],
        ),
        seconds: 3,
    }
}

/// What a download says that is dropped before it ended.
pub open spec fn stopped() -> Seq<char> {
    "download task stopped before completion"@
}

impl DownloadRun {
    /// Admits a download, if none is under way.
    pub fn try_claim(active: &mut bool) -> (r: Option<DownloadRun>)
        ensures
            *final(active),
            match r {
                Some(run) => !*old(active) && run.progress@ == ProgressV::fresh() && !run.settled,
                None => *old(active),
            },
    {
        if *active {
            return None;
        }
        *active = true;
        Some(DownloadRun { progress: DownloadProgressPayload::default(), settled: false })
    }

    /// The files are known.
    pub fn list(&mut self, filenames: Vec<String>)
        ensures
            final(self).progress@ == old(self).progress@.listed(text_views(filenames@)),
            final(self).settled == old(self).settled,
    {
        let ghost all = old(self).progress@.listed(text_views(filenames@)).items;
        let mut items: Vec<DownloadItem> = Vec::new();
        let mut i: usize = 0;
        while i < filenames.len()
            invariant
                i <= filenames@.len(),
                all == old(self).progress@.listed(text_views(filenames@)).items,
                items_view(items@) == all.take(i as int),
            decreases filenames.len() - i,
        {
            let ghost before = items_view(items@);
            items.push(
                DownloadItem {
                    filename: filenames[i].clone(),
                    status: FileDownloadStatus::Pending,
                },
            );
            assert(items_view(items@) =~= before.push(all[i as int]));
            i = i + 1;
            assert(items_view(items@) =~= all.take(i as int));
        }
        assert(all.take(i as int) =~= all);
        self.progress.items = items;
    }

    fn put_status(&mut self, index: usize, status: FileDownloadStatus)
        requires
            index < old(self).progress@.items.len(),
        ensures
            final(self).progress@ == old(self).progress@.with_status(index as int, status@),
            final(self).settled == old(self).settled,
    {
        let ghost before = self.progress@;
        let filename = self.progress.items[index].filename.clone();
        assert(filename@ == before.items[index as int].filename);
        self.progress.items.set(index, DownloadItem { filename, status });
        assert(self.progress@.items =~= before.with_status(index as int, status@).items);
    }

    /// The file that comes next is begun: its name, or nothing behind the last one.
    pub fn downloading(&mut self, index: usize) -> (r: Option<String>)
        ensures
            final(self).settled == old(self).settled,
            match r {
                Some(name) => index < old(self).progress@.items.len() && name@ == old(
                    self,
                ).progress@.items[index as int].filename && final(self).progress@ == old(
                    self,
                ).progress@.with_status(index as int, StatusV::Downloading),
                None => index >= old(self).progress@.items.len() && final(self).progress@ == old(
                    self,
                ).progress@,
            },
    {
        if index >= self.progress.items.len() {
            return None;
        }
        let name = self.progress.items[index].filename.clone();
        self.put_status(index, FileDownloadStatus::Downloading);
        Some(name)
    }

    /// A file is done or has failed.
    pub fn record(&mut self, index: usize, result: Result<(), String>)
        requires
            index < old(self).progress@.items.len(),
            old(self).progress.success_count < usize::MAX,
            old(self).progress.fail_count < usize::MAX,
        ensures
            final(self).progress@ == old(self).progress@.recorded(
                index as int,
                match result {
                    Ok(_) => None,
                    Err(e) => Some(e@),
                },
            ),
            final(self).settled == old(self).settled,
    {
        match result {
            Ok(()) => {
                self.progress.success_count = self.progress.success_count + 1;
                self.put_status(index, FileDownloadStatus::Done);
            },
            Err(e) => {
                self.progress.fail_count = self.progress.fail_count + 1;
                self.put_status(index, FileDownloadStatus::Failed(e));
            },
        }
    }

    fn fail_rest(&mut self, error: &str) -> (n: usize)
        ensures
            final(self).progress@ == (ProgressV {
                items: old(self).progress@.items.map_values(|i: ItemV| settled(i, error@)),
                ..old(self).progress@
            }),
            n == unsettled_count(old(self).progress@.items),
            final(self).settled == old(self).settled,
    {
        let ghost before = self.progress@;
        let ghost all = before.items.map_values(|i: ItemV| settled(i, error@));
        let mut n: usize = 0;
        let mut i: usize = 0;
        assert(self.progress@.items =~= all.take(0) + before.items.skip(0));
        while i < self.progress.items.len()
            invariant
                i <= before.items.len(),
                n <= i,
                self.settled == old(self).settled,
                self.progress@.items.len() == before.items.len(),
                all == before.items.map_values(|i: ItemV| settled(i, error@)),
                n == unsettled_count(before.items.take(i as int)),
                self.progress@ == (ProgressV {
                    items: all.take(i as int) + before.items.skip(i as int),
                    ..before
                }),
            decreases before.items.len() - i,
        {
            let ghost now = self.progress@;
            assert(now.items[i as int] == before.items[i as int]);
            assert(now.items[i as int] == self.progress.items@[i as int]@);
            assert(before.items.take(i + 1).drop_last() =~= before.items.take(i as int));
            let open = match self.progress.items[i].status {
                FileDownloadStatus::Pending => true,
                FileDownloadStatus::Downloading => true,
                _ => false,
            };
            if open {
                self.put_status(i, FileDownloadStatus::Failed(error.to_owned()));
                n = n + 1;
            }
            i = i + 1;
            assert(self.progress@.items =~= all.take(i as int) + before.items.skip(i as int));
        }
        assert(before.items.take(i as int) =~= before.items);
        assert(self.progress@.items =~= all);
        n
    }

    /// The download has ended; gives the note on it.
    pub fn finish(&mut self, result: Result<(), String>) -> (n: Notification)
        requires
            old(self).progress.fail_count + old(self).progress.items.len() < usize::MAX,
        ensures
            final(self).progress@ == old(self).progress@.ended(
                match result {
                    Ok(_) => None,
                    Err(e) => Some(e@),
                },
            ),
            final(self).settled,
            n@ == finished_note(final(self).progress@),
    {
        match result {
            Ok(()) => {},
            Err(e) => {
                proof {
                    every_file_is_counted(self.progress@.items);
                }
                let failed: usize = self.fail_rest(e.as_str());
                if failed == 0 {
                    self.progress.fail_count = self.progress.fail_count + 1;
                } else {
                    self.progress.fail_count = self.progress.fail_count + failed;
                }
            },
        }
        self.progress.finished = true;
        self.settled = true;
        let note = Piece::msg3(
            "popup-download-finished-notify",
            Arg::number("total", self.progress.items.len() as u64),
            Arg::number("success", self.progress.success_count as u64),
            Arg::number("failed", self.progress.fail_count as u64),
            Style::fg(Color::Plain),
        );
        Notification { message: note.words, seconds: 3 }
    }

    /// Gives up the download: one that did not end fails first. Only then may another
    /// begin.
    pub fn release(&mut self, active: &mut bool) -> (n: Option<Notification>)
        requires
            old(self).progress.fail_count + old(self).progress.items.len() < usize::MAX,
        ensures
            !*final(active),
            final(self).settled,
            match n {
                Some(note) => !old(self).settled && final(self).progress@ == old(
                    self,
                ).progress@.ended(Some(stopped())) && note@ == finished_note(
                    final(self).progress@,
                ),
                None => old(self).settled && final(self).progress@ == old(self).progress@,
            },
    {
        let note = if self.settled {
            None
        } else {
            Some(self.finish(Err("download task stopped before completion".to_owned())))
        };
        *active = false;
        note
    }
}

/// Where a file is fetched from.
pub fn file_url(raw_prefix: &str, filename: &str) -> (r: String)
    ensures
        r@ == raw_prefix@ + filename@,
{
    cat(raw_prefix, filename)
}

} // verus!
