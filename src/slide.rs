//! The slides of a survey and what each of them decides.
//!
//! A slide opens by sending the client a few commands, then consumes control
//! messages or sensor events until its own completion condition holds.
//! Messages a slide does not act on are ignored.

use vstd::prelude::*;

use crate::message::{Command, Control, Page, Phase, Record, SensorEvent, SlideKind};
use crate::press::Press;

verus! {

/// Number of Likert answers a Likert slide waits for.
pub const LIKERT_ANSWERS: u32 = 3;

/// A unit of the survey protocol.
pub trait Slide {
    /// The commands the slide opens with, shown to the subject `subject`.
    spec fn opening(&self, subject: u32) -> Seq<Command>;

    fn commands(&self, subject: u32) -> (r: Vec<Command>)
        ensures
            r@ == self.opening(subject),
    ;
}

/// Front page of the survey.
pub struct FrontMatter {}

impl FrontMatter {
    pub fn new() -> (r: Self) {
        FrontMatter {}
    }

    /// Whether `m` ends the slide: the subject pressed begin.
    pub fn completes(&self, m: &Control) -> (r: bool)
        ensures
            r == (*m is Begin),
    {
        matches!(m, Control::Begin)
    }
}

impl Slide for FrontMatter {
    open spec fn opening(&self, subject: u32) -> Seq<Command> {
        seq![Command::NavigateTo(Page::FrontMatter)]
    }

    fn commands(&self, subject: u32) -> (r: Vec<Command>) {
        vec![Command::NavigateTo(Page::FrontMatter)]
    }
}

/// Consent page, showing the subject's id.
pub struct Consent {}

impl Consent {
    pub fn new() -> (r: Self) {
        Consent {}
    }

    /// Whether `m` ends the slide: the subject gave consent.
    pub fn completes(&self, m: &Control) -> (r: bool)
        ensures
            r == (*m is ConsentGiven),
    {
        matches!(m, Control::ConsentGiven)
    }
}

impl Slide for Consent {
    open spec fn opening(&self, subject: u32) -> Seq<Command> {
        seq![Command::SetConsentSubjectId(subject), Command::NavigateTo(Page::Consent)]
    }

    fn commands(&self, subject: u32) -> (r: Vec<Command>) {
        vec![Command::SetConsentSubjectId(subject), Command::NavigateTo(Page::Consent)]
    }
}

impl Slide for Press {
    open spec fn opening(&self, subject: u32) -> Seq<Command> {
        seq![
            Command::SetMaterialIndex { material: self.material, kind: SlideKind::Press },
            Command::NavigateTo(Page::Press),
        ]
    }

    fn commands(&self, subject: u32) -> (r: Vec<Command>) {
        vec![
            Command::SetMaterialIndex { material: self.material, kind: SlideKind::Press },
            Command::NavigateTo(Page::Press),
        ]
    }
}

/// Number of Likert answers in a sequence of control messages.
pub open spec fn count_answers(s: Seq<Control>) -> nat
    decreases s.len(),
{
    if s.len() == 0 {
        0
    } else {
        count_answers(s.drop_last()) + if s.last() is Likert {
            1nat
        } else {
            0nat
        }
    }
}

/// The records of subject `subject` for the Likert answers in `s`, in order.
pub open spec fn answer_records(subject: u32, s: Seq<Control>) -> Seq<Record>
    decreases s.len(),
{
    if s.len() == 0 {
        Seq::empty()
    } else {
        let prev = answer_records(subject, s.drop_last());
        match s.last() {
            Control::Likert(a) => prev.push(Record::Likert { subject, question: a.name, value: a.value }),
            _ => prev,
        }
    }
}

proof fn lemma_answer_records_len(subject: u32, s: Seq<Control>)
    ensures
        answer_records(subject, s).len() == count_answers(s),
    decreases s.len(),
{
    if s.len() > 0 {
        lemma_answer_records_len(subject, s.drop_last());
    }
}

proof fn lemma_count_prefix(s: Seq<Control>, i: int)
    requires
        0 <= i <= s.len(),
    ensures
        count_answers(s.take(i)) <= count_answers(s),
    decreases s.len(),
{
    if i == s.len() {
        assert(s.take(i) == s);
    } else {
        assert(s.take(i) == s.drop_last().take(i));
        lemma_count_prefix(s.drop_last(), i);
    }
}

/// Likert questions on one material and gesture.
pub struct Likert {
    pub material: u32,
    pub gesture: String,
}

impl Likert {
    pub fn new(material: u32, gesture: String) -> (r: Self)
        ensures
            r.material == material,
            r.gesture == gesture,
    {
        Likert { material, gesture }
    }

    /// Takes one control message while `remaining` answers are still awaited.
    /// An answer is counted and returned as the record to write; any other
    /// message leaves the count and writes nothing.
    pub fn on_control(&self, subject: u32, remaining: &mut u32, m: &Control) -> (r: Option<Record>)
        requires
            *old(remaining) > 0,
        ensures
            match *m {
                Control::Likert(a) => {
                    &&& *final(remaining) == *old(remaining) - 1
                    &&& r == Some(Record::Likert { subject, question: a.name, value: a.value })
                },
                _ => *final(remaining) == *old(remaining) && r.is_none(),
            },
    {
        match m {
            Control::Likert(a) => {
                *remaining = *remaining - 1;
                Some(Record::Likert { subject, question: a.name.clone(), value: a.value })
            },
            _ => None,
        }
    }

    /// Runs the slide over the control messages `msgs` as they arrive: returns
    /// the records written and how many messages were consumed. The slide
    /// stops right after the `LIKERT_ANSWERS`-th answer, or when the messages
    /// run out.
    pub fn collect(&self, subject: u32, msgs: &Vec<Control>) -> (r: (Vec<Record>, usize))
        ensures
            r.1 <= msgs@.len(),
            r.0@ == answer_records(subject, msgs@.take(r.1 as int)),
            r.0@.len() == count_answers(msgs@.take(r.1 as int)),
            count_answers(msgs@) >= LIKERT_ANSWERS ==> {
                &&& count_answers(msgs@.take(r.1 as int)) == LIKERT_ANSWERS
                &&& msgs@[r.1 - 1] is Likert
            },
            count_answers(msgs@) < LIKERT_ANSWERS ==> r.1 == msgs@.len(),
    {
        let mut records: Vec<Record> = Vec::new();
        let mut remaining: u32 = LIKERT_ANSWERS;
        let mut i: usize = 0;
        while remaining > 0 && i < msgs.len()
            invariant
                i <= msgs@.len(),
                remaining + count_answers(msgs@.take(i as int)) == LIKERT_ANSWERS,
                records@ == answer_records(subject, msgs@.take(i as int)),
                remaining == 0 ==> i > 0 && msgs@[i - 1] is Likert,
            decreases msgs@.len() - i,
        {
            let m = &msgs[i];
            assert(msgs@.take(i + 1).drop_last() == msgs@.take(i as int));
            match self.on_control(subject, &mut remaining, m) {
                Some(rec) => records.push(rec),
                None => {},
            }
            i = i + 1;
        }
        proof {
            lemma_answer_records_len(subject, msgs@.take(i as int));
            lemma_count_prefix(msgs@, i as int);
            if i == msgs@.len() {
                assert(msgs@.take(i as int) == msgs@);
            }
        }
        (records, i)
    }
}

impl Slide for Likert {
    open spec fn opening(&self, subject: u32) -> Seq<Command> {
        seq![
            Command::SetMaterialIndex { material: self.material, kind: SlideKind::Likert },
            Command::SetGestureLabel(self.gesture),
            Command::NavigateTo(Page::Likert),
        ]
    }

    fn commands(&self, subject: u32) -> (r: Vec<Command>) {
        vec![
            Command::SetMaterialIndex { material: self.material, kind: SlideKind::Likert },
            Command::SetGestureLabel(self.gesture.clone()),
            Command::NavigateTo(Page::Likert),
        ]
    }
}

/// A page where the subject reports materials by pressing and releasing them.
pub struct Response {
    /// Name of the property asked about.
    pub name: String,
    /// Number of materials to be reported.
    pub num_materials: u32,
    /// Number of the client's response page.
    pub slide_num: u32,
}

/// Progress of a Response slide.
pub struct ResponseProgress {
    /// Reports still awaited.
    pub remaining: u32,
    /// Whether a touch began since the last report.
    pub start_happened: bool,
    /// Materials reported so far, in order.
    pub materials: Vec<u32>,
}

impl ResponseProgress {
    /// `new` is the progress after `self` took the event `ev`: a touch that
    /// begins arms the next report; a release reports its material only when
    /// a touch began before it, and disarms; other events change nothing.
    pub open spec fn advance(&self, new: &ResponseProgress, ev: SensorEvent) -> bool {
        if ev.phase == Phase::Start {
            &&& new.start_happened
            &&& new.remaining == self.remaining
            &&& new.materials@ == self.materials@
        } else if ev.phase == Phase::End && self.start_happened {
            &&& !new.start_happened
            &&& new.remaining == self.remaining - 1
            &&& new.materials@ == self.materials@.push(ev.material)
        } else {
            &&& new.start_happened == self.start_happened
            &&& new.remaining == self.remaining
            &&& new.materials@ == self.materials@
        }
    }

    /// Takes one sensor event while reports are still awaited.
    pub fn on_event(&mut self, ev: &SensorEvent)
        requires
            old(self).remaining > 0,
        ensures
            old(self).advance(&*final(self), *ev),
    {
        if ev.phase == Phase::Start {
            self.start_happened = true;
        } else if ev.phase == Phase::End && self.start_happened {
            self.materials.push(ev.material);
            self.remaining = self.remaining - 1;
            self.start_happened = false;
        }
    }

    /// Whether every report has arrived.
    pub fn done(&self) -> (r: bool)
        ensures
            r == (self.remaining == 0),
    {
        self.remaining == 0
    }
}

/// A touch that begins and is then released is reported exactly once, with
/// the material of the release; a release with no touch before it is not.
pub proof fn lemma_start_end_reports_once(
    p0: ResponseProgress,
    p1: ResponseProgress,
    p2: ResponseProgress,
    p3: ResponseProgress,
    start: SensorEvent,
    end: SensorEvent,
    stray: SensorEvent,
)
    requires
        start.phase == Phase::Start,
        end.phase == Phase::End,
        stray.phase == Phase::End,
        p0.advance(&p1, start),
        p1.advance(&p2, end),
        p2.advance(&p3, stray),
    ensures
        p2.remaining == p0.remaining - 1,
        p2.materials@ == p0.materials@.push(end.material),
        p3.remaining == p2.remaining,
        p3.materials@ == p2.materials@,
{
}

impl Response {
    pub fn new(name: String, num_materials: u32, slide_num: u32) -> (r: Self)
        ensures
            r.name == name,
            r.num_materials == num_materials,
            r.slide_num == slide_num,
    {
        Response { name, num_materials, slide_num }
    }

    /// Progress before any event: every report awaited, no touch begun.
    pub fn begin(&self) -> (r: ResponseProgress)
        ensures
            r.remaining == self.num_materials,
            !r.start_happened,
            r.materials@ == Seq::<u32>::empty(),
    {
        ResponseProgress { remaining: self.num_materials, start_happened: false, materials: Vec::new() }
    }

    /// The record of subject `subject` for the materials reported.
    pub fn record(&self, subject: u32, progress: ResponseProgress) -> (r: Record)
        ensures
            r == (Record::Response { subject, name: self.name, materials: progress.materials }),
    {
        Record::Response { subject, name: self.name.clone(), materials: progress.materials }
    }
}

impl Slide for Response {
    open spec fn opening(&self, subject: u32) -> Seq<Command> {
        seq![Command::NavigateTo(Page::Slide(self.slide_num))]
    }

    fn commands(&self, subject: u32) -> (r: Vec<Command>) {
        vec![Command::NavigateTo(Page::Slide(self.slide_num))]
    }
}

} // verus!
