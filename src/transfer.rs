use vstd::prelude::*;
use crate::error::InstallError;
use crate::text::chars_of;

verus! {

/// A progress report of one transfer.
#[derive(Clone, Debug, PartialEq, Eq)]
pub enum DownloadStatus {
    /// The transfer failed; nothing follows.
    Error(InstallError),
    /// `written` bytes of the `total` that the server announced are stored.
    Downloading { written: u64, total: u64 },
    /// The body ended; nothing follows.
    Downloaded,
}

/// What one read of the response body gave: a number of bytes (zero at
/// the end of the body) or a failure.
#[derive(Clone, Debug, PartialEq, Eq)]
pub enum ReadOutcome {
    Read(usize),
    Failed(InstallError),
}

pub open spec fn is_digit(c: char) -> bool {
    '0' <= c && c <= '9'
}

pub open spec fn all_digits(s: Seq<char>) -> bool {
    forall|i: int| 0 <= i < s.len() ==> is_digit(#[trigger] s[i])
}

/// The number that a string of decimal digits writes.
pub open spec fn decimal_value(s: Seq<char>) -> int
    decreases s.len(),
{
    if s.len() == 0 {
        0
    } else {
        decimal_value(s.drop_last()) * 10 + (s.last() as int - '0' as int)
    }
}

/// The length that a length header announces: one or more decimal digits
/// whose value fits in 64 bits.
pub open spec fn announced_length(s: Seq<char>) -> Option<u64> {
    if s.len() > 0 && all_digits(s) && decimal_value(s) <= u64::MAX {
        Some(decimal_value(s) as u64)
    } else {
        None
    }
}

proof fn lemma_decimal_nonneg(s: Seq<char>)
    requires
        all_digits(s),
    ensures
        decimal_value(s) >= 0,
    decreases s.len(),
{
    if s.len() > 0 {
        assert(is_digit(s[s.len() - 1]));
        lemma_decimal_nonneg(s.drop_last());
    }
}

proof fn lemma_prefix_value_le(s: Seq<char>, j: int)
    requires
        all_digits(s),
        0 <= j <= s.len(),
    ensures
        decimal_value(s.take(j)) <= decimal_value(s),
    decreases s.len() - j,
{
    if j < s.len() {
        lemma_prefix_value_le(s, j + 1);
        let p = s.take(j + 1);
        assert(p.drop_last() =~= s.take(j));
        assert(is_digit(p[j]));
        lemma_decimal_nonneg(s.take(j));
    } else {
        assert(s.take(j) =~= s);
    }
}

/// Reads the value of a length header.
pub fn parse_content_length(header: &str) -> (r: Option<u64>)
    ensures
        r == announced_length(header@),
{
    let cs = chars_of(header);
    if cs.len() == 0 {
        return None;
    }
    let mut acc: u64 = 0;
    let mut i: usize = 0;
    while i < cs.len()
        invariant
            0 <= i <= cs@.len(),
            cs@ == header@,
            all_digits(cs@.take(i as int)),
            acc as int == decimal_value(cs@.take(i as int)),
        decreases cs@.len() - i,
    {
        let c = cs[i];
        if !('0' <= c && c <= '9') {
            assert(!all_digits(cs@)) by {
                assert(!is_digit(cs@[i as int]));
            }
            return None;
        }
        let d: u64 = (c as u32 - '0' as u32) as u64;
        assert(cs@.take(i as int + 1).drop_last() =~= cs@.take(i as int));
        assert(all_digits(cs@.take(i as int + 1))) by {
            assert forall|k: int| 0 <= k < i as int + 1 implies is_digit(#[trigger] cs@.take(i as int + 1)[k]) by {
                if k < i as int {
                    assert(cs@.take(i as int + 1)[k] == cs@.take(i as int)[k]);
                }
            }
        }
        if acc > (u64::MAX - d) / 10 {
            proof {
                assert(decimal_value(cs@.take(i as int + 1)) > u64::MAX);
                if all_digits(cs@) {
                    lemma_prefix_value_le(cs@, i as int + 1);
                }
            }
            return None;
        }
        acc = acc * 10 + d;
        i = i + 1;
    }
    assert(cs@.take(cs@.len() as int) =~= cs@);
    Some(acc)
}

/// A read that gave at least one byte.
pub open spec fn is_data(read: ReadOutcome) -> bool {
    read matches ReadOutcome::Read(n) && n > 0
}

/// The byte count after `n` more bytes, held at the largest value.
pub open spec fn grown(written: u64, n: usize) -> u64 {
    if written + n > u64::MAX {
        u64::MAX
    } else {
        (written + n) as u64
    }
}

/// The report that follows one read, `written` bytes being stored before it.
pub open spec fn status_after(written: u64, total: u64, read: ReadOutcome) -> DownloadStatus {
    match read {
        ReadOutcome::Read(n) => if n == 0 {
            DownloadStatus::Downloaded
        } else {
            DownloadStatus::Downloading { written: grown(written, n), total }
        },
        ReadOutcome::Failed(e) => DownloadStatus::Error(e),
    }
}

/// The reports of a transfer whose body reads give `reads`, `written`
/// bytes being stored already. A body whose reads run out has ended.
pub open spec fn reports(written: u64, total: u64, reads: Seq<ReadOutcome>) -> Seq<DownloadStatus>
    decreases reads.len(),
{
    if reads.len() == 0 {
        seq![DownloadStatus::Downloaded]
    } else {
        let s = status_after(written, total, reads[0]);
        match s {
            DownloadStatus::Downloading { written: w, total: _ } => seq![s] + reports(w, total, reads.drop_first()),
            _ => seq![s],
        }
    }
}

/// The state of one transfer: how much is stored, how much was announced,
/// and whether a final report was given.
#[derive(Clone, Copy, Debug, PartialEq, Eq, Structural)]
pub struct Transfer {
    pub written: u64,
    pub total: u64,
    pub finished: bool,
}

impl Transfer {
    /// Starts a transfer from the length header of the answer, if any. A
    /// missing or unusable header is a protocol error.
    pub fn start(content_length: Option<&str>) -> (r: Result<Transfer, InstallError>)
        ensures
            match content_length {
                Some(h) if announced_length(h@) is Some => r == Ok::<Transfer, InstallError>(
                    Transfer { written: 0, total: announced_length(h@)->0, finished: false },
                ),
                _ => r matches Err(InstallError::Protocol(_)),
            },
    {
        let total = match content_length {
            Some(h) => parse_content_length(h),
            None => None,
        };
        match total {
            Some(total) => Ok(Transfer { written: 0, total, finished: false }),
            None => Err(InstallError::Protocol(String::from_str("missing or invalid Content-Length"))),
        }
    }

    /// Takes the outcome of one read of the body and gives the report that
    /// follows it. After a final report the transfer takes no more reads.
    pub fn on_read(&mut self, read: ReadOutcome) -> (r: DownloadStatus)
        requires
            !old(self).finished,
        ensures
            r == status_after(old(self).written, old(self).total, read),
            final(self).total == old(self).total,
            final(self).finished == !(r is Downloading),
            r is Downloading ==> final(self).written == r->written,
            !(r is Downloading) ==> final(self).written == old(self).written,
    {
        match read {
            ReadOutcome::Read(n) => {
                if n == 0 {
                    self.finished = true;
                    DownloadStatus::Downloaded
                } else {
                    self.written = self.written.saturating_add(n as u64);
                    DownloadStatus::Downloading { written: self.written, total: self.total }
                }
            },
            ReadOutcome::Failed(e) => {
                self.finished = true;
                DownloadStatus::Error(e)
            },
        }
    }
}


/// Runs a transfer whose answer carries `content_length` and whose body
/// reads give `reads`, in order, and returns every report it gives. Reads
/// after a final report are not taken; a body whose reads run out has ended.
pub fn run_transfer(content_length: Option<&str>, reads: Vec<ReadOutcome>) -> (r: Vec<DownloadStatus>)
    ensures
        match content_length {
            Some(h) if announced_length(h@) is Some => r@ == reports(0, announced_length(h@)->0, reads@),
            _ => r.len() == 1 && r[0] matches DownloadStatus::Error(InstallError::Protocol(_)),
        },
{
    let mut out: Vec<DownloadStatus> = Vec::new();
    let mut t = match Transfer::start(content_length) {
        Ok(t) => t,
        Err(e) => {
            out.push(DownloadStatus::Error(e));
            return out;
        },
    };
    let ghost total = t.total;
    let mut rest = reads;
    while rest.len() > 0
        invariant
            !t.finished,
            t.total == total,
            content_length matches Some(h) && announced_length(h@) == Some(total),
            out@ + reports(t.written, total, rest@) == reports(0, total, reads@),
        decreases rest.len(),
    {
        let ghost before = rest@;
        let ghost before_out = out@;
        let ghost w = t.written;
        let read = rest.remove(0);
        assert(rest@ =~= before.drop_first());
        let status = t.on_read(read);
        out.push(status);
        assert(before_out + reports(w, total, before) == reports(0, total, reads@));
        if t.finished {
            assert(reports(w, total, before) == seq![status]);
            assert(out@ =~= before_out + seq![status]);
            return out;
        }
        assert(reports(w, total, before) == seq![status] + reports(t.written, total, rest@));
        assert(out@ =~= before_out + seq![status]);
    }
    out.push(DownloadStatus::Downloaded);
    out
}

/// Every transfer gives one or more reports: progress reports, each over
/// the announced total and none below the one before it, then exactly one
/// final report (completion or failure), and nothing after it.
pub proof fn lemma_reports_shape(written: u64, total: u64, reads: Seq<ReadOutcome>)
    ensures
        ({
            let ev = reports(written, total, reads);
            &&& ev.len() >= 1
            &&& !(ev.last() is Downloading)
            &&& forall|i: int| 0 <= i < ev.len() - 1 ==> {
                &&& #[trigger] ev[i] is Downloading
                &&& ev[i]->total == total
                &&& written <= ev[i]->written
            }
            &&& forall|i: int, j: int| 0 <= i <= j < ev.len() - 1 ==> #[trigger] ev[i]->written <= #[trigger] ev[j]->written
        }),
    decreases reads.len(),
{
    if reads.len() > 0 {
        let s = status_after(written, total, reads[0]);
        if let DownloadStatus::Downloading { written: w, total: _ } = s {
            lemma_reports_shape(w, total, reads.drop_first());
            let rest = reports(w, total, reads.drop_first());
            let ev = reports(written, total, reads);
            assert(ev == seq![s] + rest);
            assert forall|i: int| 0 < i < ev.len() implies ev[i] == rest[i - 1] by {}
            assert forall|i: int, j: int| 0 <= i <= j < ev.len() - 1 implies #[trigger] ev[i]->written <= #[trigger] ev[j]->written by {
                if i > 0 {
                    assert(ev[i] == rest[i - 1]);
                    assert(ev[j] == rest[j - 1]);
                } else if j > 0 {
                    assert(ev[j] == rest[j - 1]);
                }
            }
        }
    }
}

/// The number of bytes that the reads deliver before the body ends.
pub open spec fn body_length(reads: Seq<ReadOutcome>) -> int
    decreases reads.len(),
{
    if reads.len() == 0 {
        0
    } else {
        match reads[0] {
            ReadOutcome::Read(n) => if n == 0 {
                0
            } else {
                n + body_length(reads.drop_first())
            },
            ReadOutcome::Failed(_) => 0,
        }
    }
}

proof fn lemma_body_length_nonneg(reads: Seq<ReadOutcome>)
    ensures
        body_length(reads) >= 0,
    decreases reads.len(),
{
    if reads.len() > 0 {
        lemma_body_length_nonneg(reads.drop_first());
    }
}

/// A transfer whose body reads never fail ends with exactly one completion
/// report, after progress reports that never go down; where the byte count
/// fits, the last progress report counts every byte of the body, so a body
/// of the announced size ends at the full total.
pub proof fn lemma_complete_transfer(written: u64, total: u64, reads: Seq<ReadOutcome>)
    requires
        forall|i: int| 0 <= i < reads.len() ==> #[trigger] reads[i] is Read,
    ensures
        ({
            let ev = reports(written, total, reads);
            &&& ev.last() == DownloadStatus::Downloaded
            &&& forall|i: int| 0 <= i < ev.len() - 1 ==> #[trigger] ev[i] is Downloading && ev[i]->total == total
            &&& forall|i: int, j: int| 0 <= i <= j < ev.len() - 1 ==> #[trigger] ev[i]->written <= #[trigger] ev[j]->written
            &&& (ev.len() >= 2 && written + body_length(reads) <= u64::MAX ==> ev[ev.len() - 2]->written == written
                + body_length(reads))
        }),
    decreases reads.len(),
{
    lemma_reports_shape(written, total, reads);
    if reads.len() > 0 {
        let s = status_after(written, total, reads[0]);
        assert(reads[0] is Read);
        if let DownloadStatus::Downloading { written: w, total: _ } = s {
            let rest = reads.drop_first();
            assert forall|i: int| 0 <= i < rest.len() implies #[trigger] rest[i] is Read by {
                assert(rest[i] == reads[i + 1]);
            }
            lemma_complete_transfer(w, total, rest);
            lemma_body_length_nonneg(rest);
            let ev = reports(written, total, reads);
            let rest_ev = reports(w, total, rest);
            assert(ev == seq![s] + rest_ev);
            if written + body_length(reads) <= u64::MAX {
                assert(w == written + reads[0]->Read_0);
                if rest_ev.len() >= 2 {
                    assert(ev[ev.len() - 2] == rest_ev[rest_ev.len() - 2]);
                } else {
                    assert(rest.len() == 0 || rest[0] == ReadOutcome::Read(0));
                }
            }
        }
    }
}

/// A transfer whose body gives `k` reads of data and then fails gives `k`
/// progress reports followed by exactly one failure report carrying that
/// failure, and nothing after it.
pub proof fn lemma_failed_transfer(written: u64, total: u64, reads: Seq<ReadOutcome>, k: int, e: InstallError)
    requires
        0 <= k < reads.len(),
        forall|i: int| 0 <= i < k ==> is_data(#[trigger] reads[i]),
        reads[k] == ReadOutcome::Failed(e),
    ensures
        ({
            let ev = reports(written, total, reads);
            &&& ev.len() == k + 1
            &&& forall|i: int| 0 <= i < k ==> #[trigger] ev[i] is Downloading
            &&& ev[k] == DownloadStatus::Error(e)
        }),
    decreases k,
{
    let s = status_after(written, total, reads[0]);
    if k > 0 {
        assert(is_data(reads[0]));
        let rest = reads.drop_first();
        assert forall|i: int| 0 <= i < k - 1 implies is_data(#[trigger] rest[i]) by {
            assert(rest[i] == reads[i + 1]);
        }
        let w = s->written;
        lemma_failed_transfer(w, total, rest, k - 1, e);
        let ev = reports(written, total, reads);
        assert(ev == seq![s] + reports(w, total, rest));
        assert forall|i: int| 0 <= i < k implies #[trigger] ev[i] is Downloading by {
            if i > 0 {
                assert(ev[i] == reports(w, total, rest)[i - 1]);
            }
        }
    }
}

} // verus!
