//! The carving session as a state machine.
//!
//! The engine cannot itself touch another process, so the session is a
//! machine from state and event to next state and action. The surrounding
//! program performs each action — deliver the stop signal, enumerate the
//! mappings, read a byte range, write a candidate file, deliver the continue
//! signal — and hands the outcome back as the next event. Every decision the
//! scan makes lives here and is verified; the driver is a thin loop.
//!
//! The protocol is strictly sequential: one freeze, one enumeration, a walk
//! over the mappings with a walk over each mapping's candidates, then one
//! resume. Every path, fatal failures included, issues the resume exactly
//! once after the one freeze, so the target is never left stopped; a failed
//! read, a rejected header or a failed write skips one candidate and never
//! aborts the rest of the scan.

use vstd::prelude::*;
use crate::estimate::{estimated_size, parse_header, HEADER_PREFIX_LEN};
use crate::mapping::MappingInfo;
use crate::repair::{fix_dex, repaired, REPAIR_MIN_LEN};
use crate::scan::{candidates_ok, scan_mapping, Candidate, Provenance};

verus! {

/// What the driver must do next for the session.
#[derive(Debug)]
pub enum Action {
    /// Deliver the stop signal to the target.
    Freeze,
    /// Enumerate the target's memory mappings.
    ListMappings,
    /// Read `len` bytes at absolute address `addr` of the target's memory.
    ReadBytes { addr: usize, len: usize },
    /// Persist `bytes` as the candidate found at `addr`, named after `addr`.
    WriteCandidate { addr: usize, bytes: Vec<u8> },
    /// Deliver the continue signal to the target.
    Resume,
    /// The session is over; `ok` tells whether the scan ran to completion.
    Finish { ok: bool },
}

/// The outcome of the previous action, handed back by the driver.
#[derive(Debug)]
pub enum Event {
    /// Start the session.
    Begin,
    /// The stop signal was delivered (`ok`), or delivery failed.
    FrozeTarget { ok: bool },
    /// The mapping enumeration, or `None` when it failed.
    GotMappings { maps: Option<Vec<MappingInfo>> },
    /// The bytes read, or `None` when the range was not readable.
    GotBytes { data: Option<Vec<u8>> },
    /// Whether the candidate file was written.
    WroteCandidate { ok: bool },
    /// The continue signal was delivered (or delivery failed; either way the
    /// session is over).
    Resumed,
}

/// The session's major state.
#[derive(Clone, Copy, Debug)]
pub enum Phase {
    Idle,
    Freezing,
    Enumerating,
    Walking,
    Resuming,
    Finished,
}

/// Within the walk, which read or write is outstanding.
#[derive(Clone, Copy, Debug)]
pub enum WalkStep {
    /// A whole eligible mapping's bytes.
    AwaitRegion,
    /// The current candidate's leading header bytes.
    AwaitHeader,
    /// The four-byte map-list entry count at `addr + map_off`.
    AwaitMapSize,
    /// The candidate's full estimated extent.
    AwaitPayload,
    /// The candidate file.
    AwaitWrite,
}

/// One carving session over one target process.
pub struct Session {
    pub phase: Phase,
    /// Whether the scan completed without a fatal failure; read in
    /// `Resuming` and `Finished`.
    pub ok: bool,
    /// The enumeration captured after the freeze.
    pub maps: Vec<MappingInfo>,
    /// The mapping the walk stands at.
    pub map_idx: usize,
    /// The current mapping's candidates.
    pub cands: Vec<Candidate>,
    /// The candidate the walk stands at.
    pub cand_idx: usize,
    pub sub: WalkStep,
    /// The current candidate's `map_off` header field.
    pub map_off: u32,
    /// The current candidate's estimated extent.
    pub est: u32,
    /// How many freeze actions the session has issued.
    pub freezes: u32,
    /// How many resume actions the session has issued.
    pub resumes: u32,
}

impl Session {
    /// Every enumerated mapping lies within the address space.
    pub open spec fn maps_wf(self) -> bool {
        forall|i: int| 0 <= i < self.maps@.len() ==> (#[trigger] self.maps@[i]).wf()
    }

    /// The walk's internal consistency: indices in range, and an outstanding
    /// region read only ever against an eligible mapping.
    pub open spec fn walk_inv(self) -> bool {
        &&& self.maps_wf()
        &&& self.map_idx <= self.maps@.len()
        &&& (self.sub is AwaitRegion ==> self.map_idx < self.maps@.len() && self.maps@[
            self.map_idx as int].spec_eligible())
        &&& (!(self.sub is AwaitRegion) ==> self.map_idx < self.maps@.len() && self.cand_idx
            < self.cands@.len())
    }

    /// The session invariant. It ties the freeze and resume counters to the
    /// phase: the target is frozen exactly between the one freeze and the one
    /// resume, and a session that reaches `Resuming` or `Finished` has issued
    /// each exactly once.
    pub open spec fn inv(self) -> bool {
        match self.phase {
            Phase::Idle => self.freezes == 0 && self.resumes == 0,
            Phase::Freezing => self.freezes == 1 && self.resumes == 0,
            Phase::Enumerating => self.freezes == 1 && self.resumes == 0,
            Phase::Walking => self.freezes == 1 && self.resumes == 0 && self.walk_inv(),
            Phase::Resuming => self.freezes == 1 && self.resumes == 1,
            Phase::Finished => self.freezes == 1 && self.resumes == 1,
        }
    }

    /// Which event the session expects next.
    pub open spec fn accepts(self, event: Event) -> bool {
        match self.phase {
            Phase::Idle => event is Begin,
            Phase::Freezing => event is FrozeTarget,
            Phase::Enumerating => event matches Event::GotMappings { maps } && (maps matches Some(
                ms,
            ) ==> forall|i: int| 0 <= i < ms@.len() ==> (#[trigger] ms@[i]).wf()),
            Phase::Walking => if self.sub is AwaitWrite {
                event is WroteCandidate
            } else {
                event is GotBytes
            },
            Phase::Resuming => event is Resumed,
            Phase::Finished => false,
        }
    }

    /// Any read the session asks for is the one its state says is
    /// outstanding: a whole eligible mapping for a region read, and the
    /// current candidate's header, map-list count or estimated extent for
    /// the per-candidate reads.
    pub open spec fn read_matches(self, a: Action) -> bool {
        a matches Action::ReadBytes { addr, len } ==> {
            &&& self.phase is Walking
            &&& match self.sub {
                WalkStep::AwaitRegion => self.map_idx < self.maps@.len() && self.maps@[
                    self.map_idx as int].spec_eligible() && addr == self.maps@[
                    self.map_idx as int].start && len == self.maps@[self.map_idx as int].size,
                WalkStep::AwaitHeader => self.cand_idx < self.cands@.len() && addr
                    == self.cands@[self.cand_idx as int].addr && len == HEADER_PREFIX_LEN,
                WalkStep::AwaitMapSize => self.cand_idx < self.cands@.len() && addr as int
                    == self.cands@[self.cand_idx as int].addr + self.map_off && len == 4,
                WalkStep::AwaitPayload => self.cand_idx < self.cands@.len() && addr
                    == self.cands@[self.cand_idx as int].addr && len == self.est as usize,
                WalkStep::AwaitWrite => false,
            }
        }
    }

    /// A fresh session for one target, not yet begun.
    pub fn new() -> (s: Session)
        ensures
            s.inv(),
            s.phase is Idle,
            s.freezes == 0,
            s.resumes == 0,
    {
        Session {
            phase: Phase::Idle,
            ok: false,
            maps: Vec::new(),
            map_idx: 0,
            cands: Vec::new(),
            cand_idx: 0,
            sub: WalkStep::AwaitRegion,
            map_off: 0,
            est: 0,
            freezes: 0,
            resumes: 0,
        }
    }

    pub fn freeze_count(&self) -> (r: u32)
        ensures
            r == self.freezes,
    {
        self.freezes
    }

    pub fn resume_count(&self) -> (r: u32)
        ensures
            r == self.resumes,
    {
        self.resumes
    }

    pub fn is_finished(&self) -> (r: bool)
        ensures
            r == (self.phase is Finished),
    {
        matches!(self.phase, Phase::Finished)
    }

    /// Whether the scan ran to completion; meaningful once finished.
    pub fn succeeded(&self) -> (r: bool)
        ensures
            r == self.ok,
    {
        self.ok
    }

    /// Tests whether the driver's event is the one the session expects; a
    /// driver checks this before each `step`.
    pub fn accepts_event(&self, event: &Event) -> (r: bool)
        ensures
            r == self.accepts(*event),
    {
        match event {
            Event::Begin => matches!(self.phase, Phase::Idle),
            Event::FrozeTarget { .. } => matches!(self.phase, Phase::Freezing),
            Event::GotMappings { maps } => matches!(self.phase, Phase::Enumerating) && (
            match maps {
                Some(ms) => mappings_wf(ms),
                None => true,
            }),
            Event::GotBytes { .. } => matches!(self.phase, Phase::Walking) && !matches!(
                self.sub,
                WalkStep::AwaitWrite,
            ),
            Event::WroteCandidate { .. } => matches!(self.phase, Phase::Walking) && matches!(
                self.sub,
                WalkStep::AwaitWrite,
            ),
            Event::Resumed => matches!(self.phase, Phase::Resuming),
        }
    }

    /// Leaves the frozen window: issues the one resume.
    fn go_resume(&mut self, ok: bool) -> (a: Action)
        requires
            old(self).freezes == 1,
            old(self).resumes == 0,
        ensures
            final(self).phase is Resuming,
            final(self).ok == ok,
            final(self).freezes == 1,
            final(self).resumes == 1,
            a is Resume,
            final(self).cands == old(self).cands,
    {
        self.phase = Phase::Resuming;
        self.ok = ok;
        self.resumes = self.resumes + 1;
        Action::Resume
    }

    /// Walks forward from `map_idx` to the next eligible mapping and asks for
    /// its bytes; when none is left, leaves the frozen window.
    fn next_mapping(&mut self) -> (a: Action)
        requires
            old(self).phase is Walking,
            old(self).freezes == 1,
            old(self).resumes == 0,
            old(self).maps_wf(),
            old(self).map_idx <= old(self).maps@.len(),
        ensures
            final(self).inv(),
            a is ReadBytes || a is Resume,
            final(self).freezes == 1,
            final(self).resumes == (if a is Resume {
                1u32
            } else {
                0u32
            }),
            a is ReadBytes ==> final(self).sub is AwaitRegion,
            final(self).read_matches(a),
            !(final(self).phase is Finished),
            final(self).cands == old(self).cands,
    {
        loop
            invariant
                self.phase is Walking,
                self.freezes == 1,
                self.resumes == 0,
                self.maps_wf(),
                self.map_idx <= self.maps@.len(),
                self.cands == old(self).cands,
            decreases self.maps@.len() - self.map_idx,
        {
            if self.map_idx >= self.maps.len() {
                return self.go_resume(true);
            }
            if self.maps[self.map_idx].is_eligible() {
                self.sub = WalkStep::AwaitRegion;
                let addr = self.maps[self.map_idx].start;
                let len = self.maps[self.map_idx].size;
                return Action::ReadBytes { addr, len };
            }
            self.map_idx = self.map_idx + 1;
        }
    }

    /// Asks for the current candidate's header bytes; when the mapping's
    /// candidates are exhausted, moves to the next mapping.
    fn next_candidate(&mut self) -> (a: Action)
        requires
            old(self).phase is Walking,
            old(self).freezes == 1,
            old(self).resumes == 0,
            old(self).maps_wf(),
            old(self).map_idx < old(self).maps@.len(),
            old(self).cand_idx <= old(self).cands@.len(),
        ensures
            final(self).inv(),
            a is ReadBytes || a is Resume,
            final(self).freezes == 1,
            final(self).resumes == (if a is Resume {
                1u32
            } else {
                0u32
            }),
            final(self).read_matches(a),
            !(final(self).phase is Finished),
            final(self).cands == old(self).cands,
    {
        if self.cand_idx < self.cands.len() {
            self.sub = WalkStep::AwaitHeader;
            let addr = self.cands[self.cand_idx].addr;
            Action::ReadBytes { addr, len: HEADER_PREFIX_LEN }
        } else {
            let n = self.maps.len();
            self.map_idx = self.map_idx + 1;
            self.next_mapping()
        }
    }

    /// Skips the current candidate (a failed read, a rejected header, an
    /// overflowed size) and moves on.
    fn skip_candidate(&mut self) -> (a: Action)
        requires
            old(self).phase is Walking,
            old(self).freezes == 1,
            old(self).resumes == 0,
            old(self).maps_wf(),
            old(self).map_idx < old(self).maps@.len(),
            old(self).cand_idx < old(self).cands@.len(),
        ensures
            final(self).inv(),
            a is ReadBytes || a is Resume,
            final(self).freezes == 1,
            final(self).resumes == (if a is Resume {
                1u32
            } else {
                0u32
            }),
            final(self).read_matches(a),
            !(final(self).phase is Finished),
            final(self).cands == old(self).cands,
    {
        let n = self.cands.len();
        self.cand_idx = self.cand_idx + 1;
        self.next_candidate()
    }

    /// Handles the bytes (or the failure) of the outstanding read.
    fn on_bytes(&mut self, data: Option<Vec<u8>>) -> (a: Action)
        requires
            old(self).inv(),
            old(self).phase is Walking,
            !(old(self).sub is AwaitWrite),
        ensures
            final(self).inv(),
            a is ReadBytes || a is Resume || a is WriteCandidate,
            final(self).freezes == 1,
            final(self).resumes == (if a is Resume {
                1u32
            } else {
                0u32
            }),
            !(final(self).phase is Finished),
            a matches Action::WriteCandidate { addr, bytes } ==> {
                &&& old(self).sub is AwaitPayload
                &&& data matches Some(d)
                &&& data->0@.len() == old(self).est
                &&& addr == old(self).cands@[old(self).cand_idx as int].addr
                &&& (old(self).cands@[old(self).cand_idx as int].provenance is HasMagic ==> bytes@
                    == data->0@)
                &&& (old(self).cands@[old(self).cand_idx as int].provenance is NoMagic ==> data->0@.len()
                    >= REPAIR_MIN_LEN && bytes@ == repaired(data->0@))
            },
            final(self).read_matches(a),
            old(self).sub is AwaitRegion && data is Some && data->0@.len() == old(self).maps@[
                old(self).map_idx as int].size ==> candidates_ok(
                old(self).maps@[old(self).map_idx as int],
                data->0@,
                final(self).cands@,
            ),
    {
        match self.sub {
            WalkStep::AwaitRegion => {
                match data {
                    Some(bytes) => {
                        if bytes.len() == self.maps[self.map_idx].size {
                            let cands = scan_mapping(&self.maps[self.map_idx], &bytes);
                            self.cands = cands;
                            self.cand_idx = 0;
                            self.next_candidate()
                        } else {
                            let n = self.maps.len();
                            self.map_idx = self.map_idx + 1;
                            self.next_mapping()
                        }
                    },
                    None => {
                        let n = self.maps.len();
                        self.map_idx = self.map_idx + 1;
                        self.next_mapping()
                    },
                }
            },
            WalkStep::AwaitHeader => {
                match data {
                    Some(h) => {
                        if h.len() >= HEADER_PREFIX_LEN {
                            match parse_header(&h) {
                                Some(fields) => {
                                    let addr = self.cands[self.cand_idx].addr;
                                    match addr.checked_add(fields.map_off as usize) {
                                        Some(map_addr) => {
                                            self.map_off = fields.map_off;
                                            self.sub = WalkStep::AwaitMapSize;
                                            Action::ReadBytes { addr: map_addr, len: 4 }
                                        },
                                        None => self.skip_candidate(),
                                    }
                                },
                                None => self.skip_candidate(),
                            }
                        } else {
                            self.skip_candidate()
                        }
                    },
                    None => self.skip_candidate(),
                }
            },
            WalkStep::AwaitMapSize => {
                match data {
                    Some(b) => {
                        if b.len() >= 4 {
                            let map_size = crate::le::read_u32_le(&b, 0);
                            match estimated_size(self.map_off, map_size) {
                                Some(est) => {
                                    self.est = est;
                                    self.sub = WalkStep::AwaitPayload;
                                    let addr = self.cands[self.cand_idx].addr;
                                    Action::ReadBytes { addr, len: est as usize }
                                },
                                None => self.skip_candidate(),
                            }
                        } else {
                            self.skip_candidate()
                        }
                    },
                    None => self.skip_candidate(),
                }
            },
            WalkStep::AwaitPayload => {
                match data {
                    Some(d) => {
                        if d.len() == self.est as usize {
                            let addr = self.cands[self.cand_idx].addr;
                            match self.cands[self.cand_idx].provenance {
                                Provenance::HasMagic => {
                                    self.sub = WalkStep::AwaitWrite;
                                    Action::WriteCandidate { addr, bytes: d }
                                },
                                Provenance::NoMagic => {
                                    match fix_dex(&d) {
                                        Some(fixed) => {
                                            self.sub = WalkStep::AwaitWrite;
                                            Action::WriteCandidate { addr, bytes: fixed }
                                        },
                                        None => self.skip_candidate(),
                                    }
                                },
                            }
                        } else {
                            self.skip_candidate()
                        }
                    },
                    None => self.skip_candidate(),
                }
            },
            WalkStep::AwaitWrite => {
                assert(false);
                Action::Resume
            },
        }
    }

    /// Advances the session: consumes the outcome of the previous action and
    /// says what the driver must do next.
    ///
    /// The freeze is issued exactly from the idle state; the resume is issued
    /// exactly once, always after the one freeze, on success and on every
    /// failure path alike. A written candidate is always the payload the
    /// driver just read — verbatim for a `HasMagic` candidate, the repaired
    /// image for a `NoMagic` one.
    pub fn step(&mut self, event: Event) -> (a: Action)
        requires
            old(self).inv(),
            old(self).accepts(event),
        ensures
            final(self).inv(),
            a is Freeze ==> old(self).phase is Idle,
            final(self).freezes as int == old(self).freezes as int + (if a is Freeze {
                1int
            } else {
                0int
            }),
            a is Resume ==> old(self).freezes == 1 && old(self).resumes == 0,
            final(self).resumes as int == old(self).resumes as int + (if a is Resume {
                1int
            } else {
                0int
            }),
            (final(self).phase is Finished) <==> (a is Finish),
            final(self).phase is Finished ==> final(self).freezes == 1 && final(self).resumes
                == 1,
            a matches Action::WriteCandidate { addr, bytes } ==> {
                &&& old(self).sub is AwaitPayload
                &&& event matches Event::GotBytes { data: Some(d) }
                &&& event->data->0@.len() == old(self).est
                &&& addr == old(self).cands@[old(self).cand_idx as int].addr
                &&& (old(self).cands@[old(self).cand_idx as int].provenance is HasMagic ==> bytes@
                    == event->data->0@)
                &&& (old(self).cands@[old(self).cand_idx as int].provenance is NoMagic ==> event->data->0@.len()
                    >= REPAIR_MIN_LEN && bytes@ == repaired(event->data->0@))
            },
            final(self).read_matches(a),
            old(self).phase is Walking && old(self).sub is AwaitRegion && event is GotBytes
                && event->data is Some && event->data->0@.len() == old(self).maps@[
                old(self).map_idx as int].size ==> candidates_ok(
                old(self).maps@[old(self).map_idx as int],
                event->data->0@,
                final(self).cands@,
            ),
    {
        let phase = self.phase;
        match (phase, event) {
            (Phase::Idle, Event::Begin) => {
                self.freezes = self.freezes + 1;
                self.phase = Phase::Freezing;
                Action::Freeze
            },
            (Phase::Freezing, Event::FrozeTarget { ok }) => {
                if ok {
                    self.phase = Phase::Enumerating;
                    Action::ListMappings
                } else {
                    self.go_resume(false)
                }
            },
            (Phase::Enumerating, Event::GotMappings { maps }) => {
                match maps {
                    Some(ms) => {
                        self.maps = ms;
                        self.map_idx = 0;
                        self.phase = Phase::Walking;
                        self.next_mapping()
                    },
                    None => self.go_resume(false),
                }
            },
            (Phase::Walking, Event::GotBytes { data }) => self.on_bytes(data),
            (Phase::Walking, Event::WroteCandidate { ok: _ }) => {
                let n = self.cands.len();
                self.cand_idx = self.cand_idx + 1;
                self.next_candidate()
            },
            (Phase::Resuming, Event::Resumed) => {
                self.phase = Phase::Finished;
                Action::Finish { ok: self.ok }
            },
            _ => {
                assert(false);
                Action::Resume
            },
        }
    }
}

/// Tests that every enumerated mapping lies within the address space.
pub fn mappings_wf(ms: &Vec<MappingInfo>) -> (r: bool)
    ensures
        r == forall|i: int| 0 <= i < ms@.len() ==> (#[trigger] ms@[i]).wf(),
{
    let n = ms.len();
    let mut i: usize = 0;
    while i < n
        invariant
            0 <= i <= n == ms@.len(),
            forall|j: int| 0 <= j < i ==> (#[trigger] ms@[j]).wf(),
        decreases n - i,
    {
        if ms[i].size > usize::MAX - ms[i].start {
            return false;
        }
        i += 1;
    }
    true
}

/// Law: a session that has reached its end issued exactly one freeze and
/// exactly one resume, whether the scan succeeded or failed.
pub proof fn lemma_finished_session_balanced(s: Session)
    requires
        s.inv(),
        s.phase is Finished,
    ensures
        s.freezes == 1,
        s.resumes == 1,
{
}

} // verus!
