//! The reconciliation engine.
//!
//! Reconciliation walks the partition manifest in order.  For each entry it
//! asks for the partition's current digest; a matching digest means the
//! partition is up to date, a differing one means it is stale.  In apply
//! mode a stale partition is downloaded, written, and re-verified — exactly
//! one download and one write, in that order, before the re-verification
//! read.  In dry-run mode staleness is only recorded.
//!
//! The engine performs no I/O itself.  It exposes the next `Action` the
//! surrounding application should perform and consumes the resulting
//! `Event`; every transition is the pure function `step_spec` over the
//! engine's model.

use vstd::prelude::*;
use vstd::string::StringExecFns;

use crate::manifest::{EntryModel, PartitionEntry};

verus! {

/// Whether a run may download and write, or only report.
#[derive(Clone, Copy, Debug, PartialEq, Eq, Structural)]
pub enum Mode {
    /// Report staleness only; never download or write.
    DryRun,
    /// Download and flash stale partitions, then re-verify them.
    Apply,
}

/// Where the engine stands inside the current entry.
#[derive(Clone, Copy, Debug, PartialEq, Eq, Structural)]
pub enum Phase {
    /// Waiting for the digest of the current partition's contents.
    NeedDigest,
    /// Waiting for the download of the current entry's image file.
    NeedDownload,
    /// Waiting for the image to be written to the partition.
    NeedWrite,
    /// Waiting for the post-flash digest of the partition.
    NeedReverify,
    /// Every entry has been processed.
    Finished,
}

/// The recorded fate of one processed entry.
#[derive(Clone, Copy, Debug, PartialEq, Eq, Structural)]
pub enum Outcome {
    /// Computed digest equalled the expected checksum.
    UpToDate,
    /// Digest differed; dry-run mode, so nothing was done.
    Stale,
    /// Digest differed; the flash succeeded and re-verification matched.
    StaleFlashed,
    /// Digest differed; the flash succeeded but re-verification did not match.
    StaleFlashVerifyFailed,
    /// The partition's contents could not be read.
    ReadError,
    /// The image file could not be downloaded.
    DownloadError,
    /// The image could not be written to the partition.
    WriteError,
}

/// What the application reports back to the engine.
pub enum Event {
    /// A digest read finished; the payload is the computed digest string.
    DigestOk(String),
    /// The partition's contents could not be read.
    DigestErr,
    /// The image file was downloaded into the cache.
    DownloadOk,
    /// The download failed.
    DownloadErr,
    /// The image was written over the partition.
    WriteOk,
    /// The write failed.
    WriteErr,
}

/// What the engine asks the application to do next.
pub enum Action {
    /// Read the named partition fully and digest its bytes.
    ComputeDigest(String),
    /// Fetch the URL into the cache under the file name.
    Download(String, String),
    /// Write the cached file's bytes over the partition.
    WriteImage(String, String),
    /// Nothing is left to do.
    Done,
}

/// Model of an `Action`, over character sequences.
pub ghost enum ActionModel {
    ComputeDigest(Seq<char>),
    Download(Seq<char>, Seq<char>),
    WriteImage(Seq<char>, Seq<char>),
    Done,
}

impl View for Action {
    type V = ActionModel;

    open spec fn view(&self) -> ActionModel {
        match self {
            Action::ComputeDigest(p) => ActionModel::ComputeDigest(p@),
            Action::Download(u, f) => ActionModel::Download(u@, f@),
            Action::WriteImage(f, p) => ActionModel::WriteImage(f@, p@),
            Action::Done => ActionModel::Done,
        }
    }
}

/// Model of the engine's state.
pub ghost struct RecModel {
    pub entries: Seq<EntryModel>,
    pub base_url: Seq<char>,
    pub mode: Mode,
    pub idx: int,
    pub phase: Phase,
    pub results: Seq<Outcome>,
}

/// Well-formedness: one recorded outcome per finished entry, the index in
/// range, `Finished` exactly at the end, and mid-entry phases only in apply
/// mode.
pub open spec fn wf(m: RecModel) -> bool {
    &&& m.results.len() == m.idx
    &&& 0 <= m.idx <= m.entries.len()
    &&& (m.phase is Finished <==> m.idx == m.entries.len())
    &&& ((m.phase is NeedDownload || m.phase is NeedWrite || m.phase is NeedReverify)
        ==> m.mode is Apply)
}

/// Whether an event is the kind of answer the engine's phase awaits.
pub open spec fn event_fits(m: RecModel, e: Event) -> bool {
    match m.phase {
        Phase::NeedDigest => e is DigestOk || e is DigestErr,
        Phase::NeedReverify => e is DigestOk || e is DigestErr,
        Phase::NeedDownload => e is DownloadOk || e is DownloadErr,
        Phase::NeedWrite => e is WriteOk || e is WriteErr,
        Phase::Finished => false,
    }
}

/// The state after recording an outcome for the current entry and moving on.
pub open spec fn record(m: RecModel, o: Outcome) -> RecModel {
    RecModel {
        idx: m.idx + 1,
        phase: if m.idx + 1 == m.entries.len() {
            Phase::Finished
        } else {
            Phase::NeedDigest
        },
        results: m.results.push(o),
        ..m
    }
}

/// One transition of the engine: the state after consuming an event.
/// Events of the wrong kind leave the state unchanged.
pub open spec fn step_spec(m: RecModel, e: Event) -> RecModel
    recommends
        wf(m),
{
    if !event_fits(m, e) {
        m
    } else {
        let entry = m.entries[m.idx];
        match m.phase {
            Phase::NeedDigest => match e {
                Event::DigestOk(d) => if d@ == entry.checksum {
                    record(m, Outcome::UpToDate)
                } else if m.mode is DryRun {
                    record(m, Outcome::Stale)
                } else {
                    RecModel { phase: Phase::NeedDownload, ..m }
                },
                _ => record(m, Outcome::ReadError),
            },
            Phase::NeedDownload => match e {
                Event::DownloadOk => RecModel { phase: Phase::NeedWrite, ..m },
                _ => record(m, Outcome::DownloadError),
            },
            Phase::NeedWrite => match e {
                Event::WriteOk => RecModel { phase: Phase::NeedReverify, ..m },
                _ => record(m, Outcome::WriteError),
            },
            Phase::NeedReverify => match e {
                Event::DigestOk(d) => if d@ == entry.checksum {
                    record(m, Outcome::StaleFlashed)
                } else {
                    record(m, Outcome::StaleFlashVerifyFailed)
                },
                _ => record(m, Outcome::ReadError),
            },
            Phase::Finished => m,
        }
    }
}

/// The action the engine asks for in a state.
pub open spec fn action_of(m: RecModel) -> ActionModel
    recommends
        wf(m),
{
    let entry = m.entries[m.idx];
    match m.phase {
        Phase::NeedDigest => ActionModel::ComputeDigest(entry.partition),
        Phase::NeedDownload => ActionModel::Download(
            m.base_url + "/"@ + entry.file,
            entry.file,
        ),
        Phase::NeedWrite => ActionModel::WriteImage(entry.file, entry.partition),
        Phase::NeedReverify => ActionModel::ComputeDigest(entry.partition),
        Phase::Finished => ActionModel::Done,
    }
}

fn url_join(base: &str, file: &str) -> (r: String)
    ensures
        r@ == base@ + "/"@ + file@,
{
    let mut u = base.to_owned();
    u.append("/");
    u.append(file);
    u
}

/// The reconciliation engine over one partition manifest.
pub struct Reconciler {
    entries: Vec<PartitionEntry>,
    base_url: String,
    mode: Mode,
    idx: usize,
    phase: Phase,
    results: Vec<Outcome>,
}

impl View for Reconciler {
    type V = RecModel;

    closed spec fn view(&self) -> RecModel {
        RecModel {
            entries: self.entries@.map_values(|e: PartitionEntry| e@),
            base_url: self.base_url@,
            mode: self.mode,
            idx: self.idx as int,
            phase: self.phase,
            results: self.results@,
        }
    }
}

/// Starts a reconciliation run over the manifest's entries, in manifest
/// order.  With `no_flash` the run is a dry run: staleness is reported and
/// nothing is downloaded or written.
pub fn flash_partition_if_newer(
    entries: Vec<PartitionEntry>,
    base_url: String,
    no_flash: bool,
) -> (r: Reconciler)
    ensures
        r@.entries == entries@.map_values(|e: PartitionEntry| e@),
        r@.base_url == base_url@,
        r@.mode == (if no_flash {
            Mode::DryRun
        } else {
            Mode::Apply
        }),
        r@.idx == 0,
        r@.results == Seq::<Outcome>::empty(),
        r@.phase == (if entries@.len() == 0 {
            Phase::Finished
        } else {
            Phase::NeedDigest
        }),
        wf(r@),
{
    let phase = if entries.len() == 0 {
        Phase::Finished
    } else {
        Phase::NeedDigest
    };
    Reconciler {
        entries,
        base_url,
        mode: if no_flash {
            Mode::DryRun
        } else {
            Mode::Apply
        },
        idx: 0,
        phase,
        results: Vec::new(),
    }
}

impl Reconciler {
    /// Records an outcome for the current entry and moves to the next.
    fn record_outcome(&mut self, o: Outcome)
        requires
            wf(old(self)@),
            !(old(self)@.phase is Finished),
        ensures
            final(self)@ == record(old(self)@, o),
    {
        let n = self.entries.len();
        self.results.push(o);
        self.idx = self.idx + 1;
        self.phase = if self.idx == n {
            Phase::Finished
        } else {
            Phase::NeedDigest
        };
    }

    /// Whether the run has processed every entry.
    pub fn is_finished(&self) -> (b: bool)
        ensures
            b == (self@.phase is Finished),
    {
        match self.phase {
            Phase::Finished => true,
            _ => false,
        }
    }

    /// Whether an event is the kind of answer the engine currently awaits.
    /// The application checks this before calling `step`.
    pub fn accepts(&self, e: &Event) -> (b: bool)
        ensures
            b == event_fits(self@, *e),
    {
        match self.phase {
            Phase::NeedDigest | Phase::NeedReverify => match e {
                Event::DigestOk(_) => true,
                Event::DigestErr => true,
                _ => false,
            },
            Phase::NeedDownload => match e {
                Event::DownloadOk => true,
                Event::DownloadErr => true,
                _ => false,
            },
            Phase::NeedWrite => match e {
                Event::WriteOk => true,
                Event::WriteErr => true,
                _ => false,
            },
            Phase::Finished => false,
        }
    }

    /// The outcomes recorded so far, one per processed entry.
    pub fn results(&self) -> (r: &Vec<Outcome>)
        ensures
            r@ == self@.results,
    {
        &self.results
    }

    /// The next action the application should perform.
    pub fn current_action(&self) -> (a: Action)
        requires
            wf(self@),
        ensures
            a@ == action_of(self@),
    {
        match self.phase {
            Phase::NeedDigest => Action::ComputeDigest(self.entries[self.idx].partition.clone()),
            Phase::NeedDownload => {
                let e = &self.entries[self.idx];
                Action::Download(url_join(self.base_url.as_str(), e.file.as_str()), e.file.clone())
            },
            Phase::NeedWrite => {
                let e = &self.entries[self.idx];
                Action::WriteImage(e.file.clone(), e.partition.clone())
            },
            Phase::NeedReverify => Action::ComputeDigest(self.entries[self.idx].partition.clone()),
            Phase::Finished => Action::Done,
        }
    }

    /// Consumes the result of the last action and advances the engine.
    pub fn step(&mut self, e: Event)
        requires
            wf(old(self)@),
            event_fits(old(self)@, e),
        ensures
            final(self)@ == step_spec(old(self)@, e),
            wf(final(self)@),
    {
        match self.phase {
            Phase::NeedDigest => match e {
                Event::DigestOk(d) => {
                    if d == self.entries[self.idx].checksum {
                        self.record_outcome(Outcome::UpToDate);
                    } else {
                        match self.mode {
                            Mode::DryRun => self.record_outcome(Outcome::Stale),
                            Mode::Apply => {
                                self.phase = Phase::NeedDownload;
                            },
                        }
                    }
                },
                _ => self.record_outcome(Outcome::ReadError),
            },
            Phase::NeedDownload => match e {
                Event::DownloadOk => {
                    self.phase = Phase::NeedWrite;
                },
                _ => self.record_outcome(Outcome::DownloadError),
            },
            Phase::NeedWrite => match e {
                Event::WriteOk => {
                    self.phase = Phase::NeedReverify;
                },
                _ => self.record_outcome(Outcome::WriteError),
            },
            Phase::NeedReverify => match e {
                Event::DigestOk(d) => {
                    if d == self.entries[self.idx].checksum {
                        self.record_outcome(Outcome::StaleFlashed);
                    } else {
                        self.record_outcome(Outcome::StaleFlashVerifyFailed);
                    }
                },
                _ => self.record_outcome(Outcome::ReadError),
            },
            Phase::Finished => {
                proof {
                    assert(false);
                }
            },
        }
    }

    /// The entries whose recorded outcome is anything but up to date, in
    /// manifest order: the partitions that still need attention.
    pub fn need_update_list(&self) -> (r: Vec<PartitionEntry>)
        requires
            wf(self@),
            self@.phase is Finished,
        ensures
            r@.len() == attention_of(self@.entries, self@.results).len(),
            forall|i: int|
                0 <= i < r@.len() ==> r@[i]@ == attention_of(self@.entries, self@.results)[i],
    {
        let n = self.entries.len();
        let mut r: Vec<PartitionEntry> = Vec::new();
        let mut i: usize = 0;
        while i < n
            invariant
                wf(self@),
                self@.phase is Finished,
                n == self@.entries.len(),
                i <= n,
                r@.len() == attention_of(self@.entries.take(i as int), self@.results.take(i as int)).len(),
                forall|k: int|
                    0 <= k < r@.len() ==> r@[k]@ == attention_of(
                        self@.entries.take(i as int),
                        self@.results.take(i as int),
                    )[k],
            decreases n - i,
        {
            proof {
                lemma_take_step(self@.entries, self@.results, i as int);
            }
            match self.results[i] {
                Outcome::UpToDate => {},
                _ => {
                    let e = self.entries[i].duplicate();
                    r.push(e);
                },
            }
            i = i + 1;
        }
        proof {
            assert(self@.entries.take(n as int) =~= self@.entries);
            assert(self@.results.take(n as int) =~= self@.results);
        }
        r
    }

    /// The entries whose flash failed re-verification, in manifest order:
    /// the machine-readable summary of an apply run.
    pub fn verify_failures(&self) -> (r: Vec<PartitionEntry>)
        requires
            wf(self@),
            self@.phase is Finished,
        ensures
            r@.len() == failures_of(self@.entries, self@.results).len(),
            forall|i: int|
                0 <= i < r@.len() ==> r@[i]@ == failures_of(self@.entries, self@.results)[i],
    {
        let n = self.entries.len();
        let mut r: Vec<PartitionEntry> = Vec::new();
        let mut i: usize = 0;
        while i < n
            invariant
                wf(self@),
                self@.phase is Finished,
                n == self@.entries.len(),
                i <= n,
                r@.len() == failures_of(self@.entries.take(i as int), self@.results.take(i as int)).len(),
                forall|k: int|
                    0 <= k < r@.len() ==> r@[k]@ == failures_of(
                        self@.entries.take(i as int),
                        self@.results.take(i as int),
                    )[k],
            decreases n - i,
        {
            proof {
                lemma_take_step_failures(self@.entries, self@.results, i as int);
            }
            match self.results[i] {
                Outcome::StaleFlashVerifyFailed => {
                    let e = self.entries[i].duplicate();
                    r.push(e);
                },
                _ => {},
            }
            i = i + 1;
        }
        proof {
            assert(self@.entries.take(n as int) =~= self@.entries);
            assert(self@.results.take(n as int) =~= self@.results);
        }
        r
    }
}

/// The entries whose outcome is anything but `UpToDate`, in order.
pub open spec fn attention_of(entries: Seq<EntryModel>, results: Seq<Outcome>) -> Seq<EntryModel>
    recommends
        entries.len() == results.len(),
    decreases entries.len(),
{
    if entries.len() == 0 {
        Seq::empty()
    } else {
        attention_of(entries.drop_last(), results.drop_last()) + (if results.last() is UpToDate {
            Seq::<EntryModel>::empty()
        } else {
            seq![entries.last()]
        })
    }
}

/// The entries whose outcome is `StaleFlashVerifyFailed`, in order.
pub open spec fn failures_of(entries: Seq<EntryModel>, results: Seq<Outcome>) -> Seq<EntryModel>
    recommends
        entries.len() == results.len(),
    decreases entries.len(),
{
    if entries.len() == 0 {
        Seq::empty()
    } else {
        failures_of(entries.drop_last(), results.drop_last()) + (
        if results.last() is StaleFlashVerifyFailed {
            seq![entries.last()]
        } else {
            Seq::<EntryModel>::empty()
        })
    }
}

proof fn lemma_take_step(entries: Seq<EntryModel>, results: Seq<Outcome>, i: int)
    requires
        entries.len() == results.len(),
        0 <= i < entries.len(),
    ensures
        attention_of(entries.take(i + 1), results.take(i + 1)) == attention_of(
            entries.take(i),
            results.take(i),
        ) + (if results[i] is UpToDate {
            Seq::<EntryModel>::empty()
        } else {
            seq![entries[i]]
        }),
{
    assert(entries.take(i + 1).drop_last() =~= entries.take(i));
    assert(results.take(i + 1).drop_last() =~= results.take(i));
    assert(entries.take(i + 1).last() == entries[i]);
    assert(results.take(i + 1).last() == results[i]);
}

proof fn lemma_take_step_failures(entries: Seq<EntryModel>, results: Seq<Outcome>, i: int)
    requires
        entries.len() == results.len(),
        0 <= i < entries.len(),
    ensures
        failures_of(entries.take(i + 1), results.take(i + 1)) == failures_of(
            entries.take(i),
            results.take(i),
        ) + (if results[i] is StaleFlashVerifyFailed {
            seq![entries[i]]
        } else {
            Seq::<EntryModel>::empty()
        }),
{
    assert(entries.take(i + 1).drop_last() =~= entries.take(i));
    assert(results.take(i + 1).drop_last() =~= results.take(i));
    assert(entries.take(i + 1).last() == entries[i]);
    assert(results.take(i + 1).last() == results[i]);
}

/// A partition whose computed digest equals its expected checksum is
/// classified up to date, its entry is finished in one step, and the next
/// action is the next entry's digest read or nothing — never a download or
/// a write.
pub proof fn lemma_match_is_up_to_date(m: RecModel, d: String)
    requires
        wf(m),
        m.phase is NeedDigest,
        d@ == m.entries[m.idx].checksum,
    ensures
        ({
            let m2 = step_spec(m, Event::DigestOk(d));
            &&& m2.results == m.results.push(Outcome::UpToDate)
            &&& m2.idx == m.idx + 1
            &&& wf(m2)
            &&& !(action_of(m2) is Download)
            &&& !(action_of(m2) is WriteImage)
        }),
{
}

/// A stale entry in apply mode is flashed with exactly one download and one
/// write, in that order, and then re-verified: the engine's actions for the
/// entry are the download, the write, and the re-verification read of the
/// same partition, with nothing recorded until the re-verified digest
/// arrives.
pub proof fn lemma_stale_apply_flashes(m: RecModel, d: String)
    requires
        wf(m),
        m.phase is NeedDigest,
        m.mode is Apply,
        d@ != m.entries[m.idx].checksum,
    ensures
        ({
            let entry = m.entries[m.idx];
            let m1 = step_spec(m, Event::DigestOk(d));
            let m2 = step_spec(m1, Event::DownloadOk);
            let m3 = step_spec(m2, Event::WriteOk);
            &&& action_of(m1) == ActionModel::Download(m.base_url + "/"@ + entry.file, entry.file)
            &&& action_of(m2) == ActionModel::WriteImage(entry.file, entry.partition)
            &&& action_of(m3) == ActionModel::ComputeDigest(entry.partition)
            &&& m1.idx == m.idx && m2.idx == m.idx && m3.idx == m.idx
            &&& m1.results == m.results && m2.results == m.results && m3.results == m.results
            &&& wf(m1) && wf(m2) && wf(m3)
        }),
{
}

/// After the re-verification read of a flashed entry, the engine records
/// `StaleFlashed` exactly when the new digest equals the expected checksum,
/// and `StaleFlashVerifyFailed` otherwise.
pub proof fn lemma_reverify_outcome(m: RecModel, d: String)
    requires
        wf(m),
        m.phase is NeedReverify,
    ensures
        ({
            let m2 = step_spec(m, Event::DigestOk(d));
            &&& m2.results == m.results.push(
                if d@ == m.entries[m.idx].checksum {
                    Outcome::StaleFlashed
                } else {
                    Outcome::StaleFlashVerifyFailed
                },
            )
            &&& m2.idx == m.idx + 1
            &&& wf(m2)
        }),
{
}

/// Every download or write the engine asks for names the current entry's
/// own file and partition, and the download URL is the entry's file under
/// the run's base URL: work for one entry never touches another's
/// partition.
pub proof fn lemma_actions_name_current_entry(m: RecModel)
    requires
        wf(m),
    ensures
        action_of(m) matches ActionModel::Download(u, f) ==> (f == m.entries[m.idx].file && u
            == m.base_url + "/"@ + m.entries[m.idx].file),
        action_of(m) matches ActionModel::WriteImage(f, p) ==> (f == m.entries[m.idx].file && p
            == m.entries[m.idx].partition),
{
}

/// A dry run never asks for a download or a write, and stays a dry run
/// under every event: no download or write call is ever issued, whatever
/// the digests say.
pub proof fn lemma_dry_run_no_side_effects(m: RecModel, e: Event)
    requires
        wf(m),
        m.mode is DryRun,
    ensures
        !(action_of(m) is Download),
        !(action_of(m) is WriteImage),
        wf(step_spec(m, e)),
        step_spec(m, e).mode is DryRun,
{
}

} // verus!
