//! The wireless-scan handler's own logic: bounded polling for scan
//! completion, and the filter that turns raw access-point entries into a
//! clean list of labels.

use vstd::prelude::*;

use crate::fault::CauseChain;

verus! {

/// How many one-unit waits the scan poller spends before it stops waiting
/// for the subsystem to report a fresh scan.
pub const WIFI_SCAN_TIMEOUT_SECONDS: u32 = 45;

/// What the bytes of a label decode to when they are valid text, nothing
/// otherwise. Left uninterpreted: it stands for UTF-8 decoding, which the
/// library calls rather than restates.
pub uninterp spec fn decoded_label(b: Seq<u8>) -> Option<Seq<char>>;

/// Relies on `String::from_utf8`: the bytes decode to text exactly when
/// they are valid UTF-8, and the result depends on the bytes alone.
#[verifier::external_body]
fn decode_ssid(bytes: &Vec<u8>) -> (r: Option<String>)
    ensures
        r matches Some(s) ==> decoded_label(bytes@) == Some(s@),
        r is None <==> decoded_label(bytes@) is None,
{
    String::from_utf8(bytes.clone()).ok()
}

/// One raw access-point entry as the subsystem reports it: an identifying
/// label that may be absent (a hidden entry) and, when present, may be
/// arbitrary bytes rather than valid text.
pub struct AccessPoint {
    pub ssid: Option<Vec<u8>>,
}

/// The decoded label of an entry: nothing when the label is absent or not
/// valid text.
pub open spec fn ap_label(ap: AccessPoint) -> Option<Seq<char>> {
    match ap.ssid {
        Option::None => Option::<Seq<char>>::None,
        Option::Some(b) => decoded_label(b@),
    }
}

/// One entry's effect on the list built so far: an entry is kept exactly
/// when its label decodes, is non-empty, and has not been seen before.
pub open spec fn spec_filter_step(acc: Seq<Seq<char>>, ap: AccessPoint) -> Seq<Seq<char>> {
    match ap_label(ap) {
        Option::None => acc,
        Option::Some(l) => if l.len() == 0 || acc.contains(l) {
            acc
        } else {
            acc.push(l)
        },
    }
}

/// The filtered label list of a raw entry sequence: decodable, non-empty,
/// each label once, in the order each was first seen.
pub open spec fn spec_filter(aps: Seq<AccessPoint>) -> Seq<Seq<char>>
    decreases aps.len(),
{
    if aps.len() == 0 {
        Seq::empty()
    } else {
        spec_filter_step(spec_filter(aps.drop_last()), aps.last())
    }
}

/// Whether some entry of `aps` carries exactly the label `l`.
pub open spec fn occurs(aps: Seq<AccessPoint>, l: Seq<char>) -> bool {
    exists|k: int| 0 <= k < aps.len() && ap_label(aps[k]) == Some(l)
}

/// The position of the first entry of `aps` carrying the label `l` (the
/// length of `aps` when none does).
pub open spec fn first_labeled(aps: Seq<AccessPoint>, l: Seq<char>) -> int
    decreases aps.len(),
{
    if aps.len() == 0 {
        0
    } else if ap_label(aps[0]) == Some(l) {
        0
    } else {
        1 + first_labeled(aps.drop_first(), l)
    }
}

/// Every filtered label is non-empty and was carried by some raw entry.
pub proof fn lemma_filter_sound(aps: Seq<AccessPoint>, i: int)
    requires
        0 <= i < spec_filter(aps).len(),
    ensures
        spec_filter(aps)[i].len() > 0,
        occurs(aps, spec_filter(aps)[i]),
    decreases aps.len(),
{
    let prev = spec_filter(aps.drop_last());
    if i < prev.len() {
        lemma_filter_sound(aps.drop_last(), i);
        assert(spec_filter(aps)[i] == prev[i]);
        let k = choose|k: int|
            0 <= k < aps.drop_last().len() && ap_label(aps.drop_last()[k]) == Some(prev[i]);
        assert(ap_label(aps[k]) == Some(spec_filter(aps)[i]));
    } else {
        assert(spec_filter(aps)[i] == ap_label(aps.last()).unwrap());
        assert(ap_label(aps[aps.len() - 1]) == Some(spec_filter(aps)[i]));
    }
}

/// No label appears twice in the filtered list.
pub proof fn lemma_filter_unique(aps: Seq<AccessPoint>, i: int, j: int)
    requires
        0 <= i < j < spec_filter(aps).len(),
    ensures
        spec_filter(aps)[i] != spec_filter(aps)[j],
    decreases aps.len(),
{
    let prev = spec_filter(aps.drop_last());
    if j < prev.len() {
        lemma_filter_unique(aps.drop_last(), i, j);
    } else {
        assert(spec_filter(aps) == prev.push(spec_filter(aps)[j]));
        assert(!prev.contains(spec_filter(aps)[j]));
        assert(prev.contains(prev[i]));
    }
}

/// Every non-empty label some raw entry carries ends up in the filtered
/// list.
pub proof fn lemma_filter_complete(aps: Seq<AccessPoint>, k: int, l: Seq<char>)
    requires
        0 <= k < aps.len(),
        ap_label(aps[k]) == Some(l),
        l.len() > 0,
    ensures
        spec_filter(aps).contains(l),
    decreases aps.len(),
{
    let prev = spec_filter(aps.drop_last());
    if k < aps.len() - 1 {
        lemma_filter_complete(aps.drop_last(), k, l);
        let w = choose|w: int| 0 <= w < prev.len() && prev[w] == l;
        assert(spec_filter(aps)[w] == l);
    } else {
        if prev.contains(l) {
            let w = choose|w: int| 0 <= w < prev.len() && prev[w] == l;
            assert(spec_filter(aps)[w] == l);
        } else {
            assert(spec_filter(aps).last() == l);
        }
    }
}

/// When `l` occurs in `aps`, appending one more entry leaves its first
/// occurrence where it was.
proof fn lemma_first_in_prefix(aps: Seq<AccessPoint>, ap: AccessPoint, l: Seq<char>)
    requires
        occurs(aps, l),
    ensures
        first_labeled(aps.push(ap), l) == first_labeled(aps, l),
        0 <= first_labeled(aps, l) < aps.len(),
    decreases aps.len(),
{
    if ap_label(aps[0]) == Some(l) {
    } else {
        let k = choose|k: int| 0 <= k < aps.len() && ap_label(aps[k]) == Some(l);
        assert(ap_label(aps.drop_first()[k - 1]) == Some(l));
        assert(occurs(aps.drop_first(), l));
        lemma_first_in_prefix(aps.drop_first(), ap, l);
        assert(aps.push(ap).drop_first() =~= aps.drop_first().push(ap));
    }
}

/// When `l` does not occur in `aps` but the appended entry carries it, its
/// first occurrence is exactly at the end.
proof fn lemma_first_at_end(aps: Seq<AccessPoint>, ap: AccessPoint, l: Seq<char>)
    requires
        !occurs(aps, l),
        ap_label(ap) == Some(l),
    ensures
        first_labeled(aps.push(ap), l) == aps.len(),
    decreases aps.len(),
{
    if aps.len() == 0 {
        assert(ap_label(aps.push(ap)[0]) == Some(l));
    } else {
        assert(ap_label(aps[0]) != Some(l));
        assert forall|k: int| 0 <= k < aps.drop_first().len() implies ap_label(
            aps.drop_first()[k],
        ) != Some(l) by {
            assert(aps.drop_first()[k] == aps[k + 1]);
        }
        lemma_first_at_end(aps.drop_first(), ap, l);
        assert(aps.push(ap).drop_first() =~= aps.drop_first().push(ap));
    }
}

/// The filtered list keeps first-seen order: of two filtered labels, the
/// one listed earlier was first seen earlier among the raw entries.
pub proof fn lemma_filter_first_seen(aps: Seq<AccessPoint>, i: int, j: int)
    requires
        0 <= i < j < spec_filter(aps).len(),
    ensures
        first_labeled(aps, spec_filter(aps)[i]) < first_labeled(aps, spec_filter(aps)[j]),
    decreases aps.len(),
{
    let dl = aps.drop_last();
    let last = aps.last();
    let prev = spec_filter(dl);
    assert(dl.push(last) =~= aps);
    if j < prev.len() {
        lemma_filter_first_seen(dl, i, j);
        lemma_filter_sound(dl, i);
        lemma_filter_sound(dl, j);
        lemma_first_in_prefix(dl, last, prev[i]);
        lemma_first_in_prefix(dl, last, prev[j]);
    } else {
        let l = spec_filter(aps)[j];
        assert(spec_filter(aps) == prev.push(l));
        assert(!prev.contains(l));
        assert(l.len() > 0);
        lemma_filter_sound(dl, i);
        lemma_first_in_prefix(dl, last, prev[i]);
        assert forall|k: int| 0 <= k < dl.len() implies ap_label(dl[k]) != Some(l) by {
            if ap_label(dl[k]) == Some(l) {
                lemma_filter_complete(dl, k, l);
            }
        }
        lemma_first_at_end(dl, last, l);
    }
}

/// Filtering is idempotent: a sequence whose labels are already clean —
/// every entry decodable, non-empty, and no label repeated — passes
/// through the filter unchanged. Since the filter's output is exactly such
/// a list, filtering it again changes nothing.
pub proof fn lemma_filter_fixpoint(aps: Seq<AccessPoint>)
    requires
        forall|k: int|
            0 <= k < aps.len() ==> ap_label(aps[k]) is Some && ap_label(aps[k]).unwrap().len()
                > 0,
        forall|k1: int, k2: int|
            0 <= k1 < k2 < aps.len() ==> ap_label(aps[k1]) != ap_label(aps[k2]),
    ensures
        spec_filter(aps) =~= aps.map(|i: int, ap: AccessPoint| ap_label(ap).unwrap()),
    decreases aps.len(),
{
    let labels = aps.map(|i: int, ap: AccessPoint| ap_label(ap).unwrap());
    if aps.len() > 0 {
        let dl = aps.drop_last();
        lemma_filter_fixpoint(dl);
        let prev = spec_filter(dl);
        let l = ap_label(aps.last()).unwrap();
        assert forall|w: int| 0 <= w < prev.len() implies prev[w] != l by {
            assert(prev[w] == ap_label(dl[w]).unwrap());
            assert(ap_label(aps[w]) != ap_label(aps[aps.len() - 1]));
        }
        assert(!prev.contains(l));
        assert(spec_filter(aps) =~= prev.push(l));
        assert forall|w: int| 0 <= w < labels.len() implies spec_filter(aps)[w] == labels[w] by {
            if w < labels.len() - 1 {
                assert(prev[w] == ap_label(dl[w]).unwrap());
            }
        }
    }
}

/// Whether one of the labels gathered so far reads the same as `label`.
fn seen_contains(out: &Vec<String>, label: &String) -> (b: bool)
    ensures
        b == exists|j: int| 0 <= j < out@.len() && out@[j]@ == label@,
{
    let mut j: usize = 0;
    while j < out.len()
        invariant
            j <= out@.len(),
            forall|k: int| 0 <= k < j ==> out@[k]@ != label@,
        decreases out@.len() - j,
    {
        if out[j].eq(label) {
            return true;
        }
        j = j + 1;
    }
    false
}

/// Filters the raw access-point entries down to their clean labels: entries
/// whose label does not decode are dropped, later entries repeating an
/// already-seen label are dropped, and entries whose decoded label is empty
/// (hidden entries) are dropped. What remains is each surviving label
/// exactly once, in the order first seen.
pub fn filter_access_points(aps: &Vec<AccessPoint>) -> (r: Vec<String>)
    ensures
        r@.len() == spec_filter(aps@).len(),
        forall|i: int| 0 <= i < r@.len() ==> r@[i]@ == spec_filter(aps@)[i],
{
    let mut out: Vec<String> = Vec::new();
    let mut i: usize = 0;
    while i < aps.len()
        invariant
            i <= aps@.len(),
            out@.len() == spec_filter(aps@.take(i as int)).len(),
            forall|j: int|
                0 <= j < out@.len() ==> out@[j]@ == spec_filter(aps@.take(i as int))[j],
        decreases aps@.len() - i,
    {
        proof {
            assert(aps@.take(i + 1 as int).drop_last() =~= aps@.take(i as int));
            assert(aps@.take(i + 1 as int).last() == aps@[i as int]);
        }
        let ghost sofar = spec_filter(aps@.take(i as int));
        match &aps[i].ssid {
            Some(bytes) => {
                match decode_ssid(bytes) {
                    Some(label) => {
                        if !label.as_str().is_empty() && !seen_contains(&out, &label) {
                            proof {
                                assert forall|w: int| 0 <= w < sofar.len() implies sofar[w]
                                    != label@ by {
                                    assert(out@[w]@ == sofar[w]);
                                }
                                assert(!sofar.contains(label@));
                            }
                            out.push(label);
                        } else {
                            proof {
                                if label@.len() > 0 {
                                    let w = choose|w: int|
                                        0 <= w < out@.len() && out@[w]@ == label@;
                                    assert(sofar[w] == label@);
                                    assert(sofar.contains(label@));
                                }
                            }
                        }
                    },
                    None => {},
                }
            },
            None => {},
        }
        i = i + 1;
    }
    proof {
        assert(aps@.take(aps@.len() as int) =~= aps@);
    }
    out
}

/// What requesting the scan reported: a failure to even issue the request
/// is propagated at once, wrapped in the frame naming the operation.
pub fn scan_request_outcome(requested: Result<(), CauseChain>) -> (r: Result<(), CauseChain>)
    ensures
        requested is Ok <==> r is Ok,
        requested matches Err(e) ==> (r matches Err(c) && c.wf() && c.kind_spec() == e.kind_spec()
            && c.frames_spec() =~= e.frames_spec().push("Failed to request WiFi scan"@)),
{
    match requested {
        Ok(_) => Ok(()),
        Err(cause) => Err(cause.context("Failed to request WiFi scan".to_owned())),
    }
}

/// What one poll of the subsystem decides.
#[derive(Clone, Copy, PartialEq, Eq, Structural, Debug)]
pub enum PollVerdict {
    /// The subsystem completed a scan after the request was issued: stop
    /// polling and read the results.
    ScanComplete,
    /// Nothing fresh yet and budget remains: wait one unit and poll again.
    WaitAndRetry,
    /// The budget is spent without a fresh scan: stop waiting and read
    /// whatever state is available.
    BudgetExhausted,
}

/// The bounded-polling sub-protocol of the scan handler: after the scan
/// request is issued, the subsystem's "last completed" timestamp is polled
/// at a fixed interval until it passes the timestamp taken before the
/// request, for at most a fixed number of waits.
pub struct ScanPoller {
    prescan: u64,
    remaining: u32,
    budget: Ghost<nat>,
    waits: Ghost<nat>,
}

impl ScanPoller {
    /// The timestamp taken before the scan was requested.
    pub closed spec fn prescan_spec(self) -> u64 {
        self.prescan
    }

    pub closed spec fn remaining_spec(self) -> nat {
        self.remaining as nat
    }

    pub closed spec fn budget_spec(self) -> nat {
        self.budget@
    }

    /// How many waits the poller has asked for so far.
    pub closed spec fn waits_spec(self) -> nat {
        self.waits@
    }

    #[verifier::type_invariant]
    pub closed spec fn wf(self) -> bool {
        self.waits@ + self.remaining as nat == self.budget@
    }

    pub fn new(prescan: u64, budget: u32) -> (p: ScanPoller)
        ensures
            p.wf(),
            p.prescan_spec() == prescan,
            p.budget_spec() == budget as nat,
            p.waits_spec() == 0,
    {
        ScanPoller { prescan, remaining: budget, budget: Ghost(budget as nat), waits: Ghost(0) }
    }

    /// One poll, judged against the subsystem's current "last completed"
    /// timestamp: complete exactly when that timestamp passed the one taken
    /// before the request; otherwise wait while budget remains, and give
    /// the state up as-is when it does not.
    pub fn step(&mut self, last_scan: u64) -> (v: PollVerdict)
        ensures
            final(self).wf(),
            final(self).prescan_spec() == old(self).prescan_spec(),
            final(self).budget_spec() == old(self).budget_spec(),
            v == PollVerdict::ScanComplete <==> old(self).prescan_spec() < last_scan,
            v == PollVerdict::BudgetExhausted <==> (old(self).prescan_spec() >= last_scan && old(
                self,
            ).remaining_spec() == 0),
            v == PollVerdict::WaitAndRetry <==> (old(self).prescan_spec() >= last_scan && old(
                self,
            ).remaining_spec() > 0),
            v == PollVerdict::WaitAndRetry ==> final(self).waits_spec() == old(self).waits_spec()
                + 1,
            v != PollVerdict::WaitAndRetry ==> final(self).waits_spec() == old(self).waits_spec(),
    {
        proof {
            use_type_invariant(&*self);
        }
        if self.prescan < last_scan {
            PollVerdict::ScanComplete
        } else if self.remaining == 0 {
            PollVerdict::BudgetExhausted
        } else {
            *self = ScanPoller {
                prescan: self.prescan,
                remaining: self.remaining - 1,
                budget: self.budget,
                waits: Ghost(self.waits@ + 1),
            };
            PollVerdict::WaitAndRetry
        }
    }
}

/// Bounded polling: however the subsystem answers, a poller never waits
/// more often than its budget allows.
pub proof fn polling_is_bounded(p: ScanPoller)
    requires
        p.wf(),
    ensures
        p.waits_spec() <= p.budget_spec(),
{
}

} // verus!
