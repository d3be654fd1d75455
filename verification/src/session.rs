//! One recognition of a screenshot, step by step.
//!
//! The library decides what is to be done next; the caller does it with the
//! recognition engines and reports what came of it.

use vstd::prelude::*;
use crate::geometry::{scale_rect, scaled_rect, PixelRect};
use crate::layout::{
    scwh_layout,
    scwh_record,
    texts_view,
    til_death_layout,
    til_death_record,
    Engine,
    Layout,
    Region,
};
use crate::record::{EvaluationScreenData, ScreenData};
use crate::text::text_view;

verus! {

/// The resolution, in dots per inch, that an engine takes for an image that
/// states none of its own: that of a full screen.
pub const FALLBACK_RESOLUTION: i32 = 96;

/// Names the directory that holds the trained models of the engines.
pub fn data_path() -> (path: &'static str)
    ensures
        path@ == "ocr_data"@,
{
    "ocr_data"
}

/// Why a recognition ended without records.
#[derive(Clone, Copy, Debug, PartialEq, Eq, Hash, Structural)]
pub enum Error {
    /// An engine could not be set up.
    TesseractInit,
    /// The image could not be read.
    CouldNotReadImage,
}

/// What the caller is to do next.
#[derive(Clone, Copy, Debug, PartialEq, Eq, Hash, Structural)]
pub enum Step {
    /// Set up an engine.
    CreateEngine(Engine),
    /// Hand the image to an engine and report the image's size.
    LoadImage(Engine),
    /// Let an engine read the text inside a rectangle of the image.
    ReadRegion { engine: Engine, rect: PixelRect },
    /// Nothing: the recognition is over.
    Done,
}

/// What came of a step.
#[derive(Clone, Debug, PartialEq, Eq)]
pub enum Event {
    EngineCreated,
    EngineFailed,
    ImageLoaded { width: u32, height: u32 },
    ImageRejected,
    /// The text that was read from a region, `None` where none could be.
    Text(Option<String>),
}

/// An event as plain values.
pub enum EventView {
    EngineCreated,
    EngineFailed,
    ImageLoaded { width: u32, height: u32 },
    ImageRejected,
    Text(Option<Seq<char>>),
}

impl View for Event {
    type V = EventView;

    open spec fn view(&self) -> EventView {
        match *self {
            Event::EngineCreated => EventView::EngineCreated,
            Event::EngineFailed => EventView::EngineFailed,
            Event::ImageLoaded { width, height } => EventView::ImageLoaded { width, height },
            Event::ImageRejected => EventView::ImageRejected,
            Event::Text(text) => EventView::Text(text_view(text)),
        }
    }
}

/// How far a recognition has come.
pub struct Progress {
    /// Why it has failed, if it has.
    pub failure: Option<Error>,
    /// How many of the four steps of setting up are done.
    pub setup: int,
    /// Width and height of the image in the engine that reads words.
    pub text_size: (u32, u32),
    /// Width and height of the image in the engine that reads digits.
    pub digits_size: (u32, u32),
    /// What was read from the regions of the Til Death layout so far.
    pub til_death: Seq<Option<Seq<char>>>,
    /// What was read from the regions of the SCWH layout so far.
    pub scwh: Seq<Option<Seq<char>>>,
}

impl Progress {
    /// A recognition of which nothing is done.
    pub open spec fn start() -> Progress {
        Progress {
            failure: None,
            setup: 0,
            text_size: (0, 0),
            digits_size: (0, 0),
            til_death: Seq::empty(),
            scwh: Seq::empty(),
        }
    }

    /// The step that reads `region`: by the region's engine, inside the
    /// region's rectangle scaled to the image that this engine holds.
    pub open spec fn read_step(self, region: Region) -> Step {
        let size = match region.engine {
            Engine::Text => self.text_size,
            Engine::Digits => self.digits_size,
        };
        Step::ReadRegion { engine: region.engine, rect: scaled_rect(region.rect, size.0, size.1) }
    }

    /// What is to be done next: both engines are set up, then each is given
    /// the image, then the regions of the Til Death layout are read in their
    /// order, then those of the SCWH layout. After a failure nothing is left
    /// to do.
    pub open spec fn next_step(self) -> Step {
        if self.failure is Some {
            Step::Done
        } else if self.setup <= 0 {
            Step::CreateEngine(Engine::Text)
        } else if self.setup == 1 {
            Step::CreateEngine(Engine::Digits)
        } else if self.setup == 2 {
            Step::LoadImage(Engine::Text)
        } else if self.setup == 3 {
            Step::LoadImage(Engine::Digits)
        } else if self.til_death.len() < til_death_layout().len() {
            self.read_step(til_death_layout()[self.til_death.len() as int])
        } else if self.scwh.len() < scwh_layout().len() {
            self.read_step(scwh_layout()[self.scwh.len() as int])
        } else {
            Step::Done
        }
    }

    /// The progress after `event` came of the next step. An engine that
    /// cannot be set up and an image that cannot be read end the recognition;
    /// a region without text does not. An event that the next step cannot
    /// bring changes nothing.
    pub open spec fn after(self, event: EventView) -> Progress {
        match (self.next_step(), event) {
            (Step::CreateEngine(_), EventView::EngineCreated) => Progress {
                setup: self.setup + 1,
                ..self
            },
            (Step::CreateEngine(_), EventView::EngineFailed) => Progress {
                failure: Some(Error::TesseractInit),
                ..self
            },
            (Step::LoadImage(Engine::Text), EventView::ImageLoaded { width, height }) => Progress {
                setup: self.setup + 1,
                text_size: (width, height),
                ..self
            },
            (Step::LoadImage(Engine::Digits), EventView::ImageLoaded { width, height }) => Progress {
                setup: self.setup + 1,
                digits_size: (width, height),
                ..self
            },
            (Step::LoadImage(_), EventView::ImageRejected) => Progress {
                failure: Some(Error::CouldNotReadImage),
                ..self
            },
            (Step::ReadRegion { .. }, EventView::Text(text)) => if self.til_death.len()
                < til_death_layout().len() {
                Progress { til_death: self.til_death.push(text), ..self }
            } else {
                Progress { scwh: self.scwh.push(text), ..self }
            },
            _ => self,
        }
    }

    /// How the recognition ended: with the failure, or with the records of
    /// the two layouts, Til Death first. `None` while steps are left.
    pub open spec fn outcome(self) -> Option<Result<Seq<ScreenData>, Error>> {
        if self.next_step() != Step::Done {
            None
        } else {
            match self.failure {
                Some(error) => Some(Err(error)),
                None => Some(Ok(seq![til_death_record(self.til_death), scwh_record(self.scwh)])),
            }
        }
    }
}

impl Progress {
    /// The progress after a run of events, one after the other.
    pub open spec fn after_all(self, events: Seq<EventView>) -> Progress
        decreases events.len(),
    {
        if events.len() == 0 {
            self
        } else {
            self.after_all(events.drop_last()).after(events.last())
        }
    }
}

/// The events that report the texts read from one region after the other.
pub open spec fn text_events(texts: Seq<Option<Seq<char>>>) -> Seq<EventView> {
    texts.map_values(|t: Option<Seq<char>>| EventView::Text(t))
}

/// The events of a run in which nothing fails: both engines are set up, both
/// take the image, and every region of both layouts is read.
pub open spec fn full_run(
    text_size: (u32, u32),
    digits_size: (u32, u32),
    til_death: Seq<Option<Seq<char>>>,
    scwh: Seq<Option<Seq<char>>>,
) -> Seq<EventView> {
    seq![
        EventView::EngineCreated,
        EventView::EngineCreated,
        EventView::ImageLoaded { width: text_size.0, height: text_size.1 },
        EventView::ImageLoaded { width: digits_size.0, height: digits_size.1 },
    ] + text_events(til_death) + text_events(scwh)
}

proof fn lemma_after_all_joined(p: Progress, first: Seq<EventView>, second: Seq<EventView>)
    ensures
        p.after_all(first + second) == p.after_all(first).after_all(second),
    decreases second.len(),
{
    if second.len() == 0 {
        assert(first + second == first);
    } else {
        assert((first + second).drop_last() == first + second.drop_last());
        assert((first + second).last() == second.last());
        lemma_after_all_joined(p, first, second.drop_last());
    }
}

proof fn lemma_til_death_texts_are_kept(p: Progress, texts: Seq<Option<Seq<char>>>)
    requires
        p.failure is None,
        p.setup >= 4,
        p.til_death.len() + texts.len() <= til_death_layout().len(),
    ensures
        p.after_all(text_events(texts)) == (Progress { til_death: p.til_death + texts, ..p }),
    decreases texts.len(),
{
    if texts.len() == 0 {
        assert(p.til_death + texts == p.til_death);
    } else {
        let before = texts.drop_last();
        assert(text_events(texts).drop_last() == text_events(before));
        assert(text_events(texts).last() == EventView::Text(texts.last()));
        lemma_til_death_texts_are_kept(p, before);
        assert((p.til_death + before).push(texts.last()) == p.til_death + texts);
    }
}

proof fn lemma_scwh_texts_are_kept(p: Progress, texts: Seq<Option<Seq<char>>>)
    requires
        p.failure is None,
        p.setup >= 4,
        p.til_death.len() >= til_death_layout().len(),
        p.scwh.len() + texts.len() <= scwh_layout().len(),
    ensures
        p.after_all(text_events(texts)) == (Progress { scwh: p.scwh + texts, ..p }),
    decreases texts.len(),
{
    if texts.len() == 0 {
        assert(p.scwh + texts == p.scwh);
    } else {
        let before = texts.drop_last();
        assert(text_events(texts).drop_last() == text_events(before));
        assert(text_events(texts).last() == EventView::Text(texts.last()));
        lemma_scwh_texts_are_kept(p, before);
        assert((p.scwh + before).push(texts.last()) == p.scwh + texts);
    }
}

/// A run in which nothing fails ends with exactly two records: that of the
/// Til Death layout from the texts of its regions, then that of the SCWH
/// layout from the texts of its own, whatever the texts are.
pub proof fn full_run_gives_both_records(
    text_size: (u32, u32),
    digits_size: (u32, u32),
    til_death: Seq<Option<Seq<char>>>,
    scwh: Seq<Option<Seq<char>>>,
)
    requires
        til_death.len() == til_death_layout().len(),
        scwh.len() == scwh_layout().len(),
    ensures
        Progress::start().after_all(full_run(text_size, digits_size, til_death, scwh)).outcome()
            == Some(
            Ok::<Seq<ScreenData>, Error>(seq![til_death_record(til_death), scwh_record(scwh)]),
        ),
{
    let e0 = EventView::EngineCreated;
    let e2 = EventView::ImageLoaded { width: text_size.0, height: text_size.1 };
    let e3 = EventView::ImageLoaded { width: digits_size.0, height: digits_size.1 };
    let setup = seq![e0, e0, e2, e3];
    let start = Progress::start();
    let p0 = start.after_all(Seq::<EventView>::empty());
    assert(p0 == start);
    let p1 = start.after_all(seq![e0]);
    assert(p1 == start.after(e0)) by {
        assert(seq![e0].drop_last() == Seq::<EventView>::empty());
    }
    let p2 = start.after_all(seq![e0, e0]);
    assert(p2 == p1.after(e0)) by {
        assert(seq![e0, e0].drop_last() == seq![e0]);
    }
    let p3 = start.after_all(seq![e0, e0, e2]);
    assert(p3 == p2.after(e2)) by {
        assert(seq![e0, e0, e2].drop_last() == seq![e0, e0]);
    }
    let p4 = start.after_all(setup);
    assert(p4 == p3.after(e3)) by {
        assert(setup.drop_last() == seq![e0, e0, e2]);
    }
    assert(p4 == (Progress { setup: 4, text_size, digits_size, ..start }));
    lemma_after_all_joined(start, setup + text_events(til_death), text_events(scwh));
    lemma_after_all_joined(start, setup, text_events(til_death));
    lemma_til_death_texts_are_kept(p4, til_death);
    let p5 = p4.after_all(text_events(til_death));
    assert(p4.til_death + til_death == til_death);
    lemma_scwh_texts_are_kept(p5, scwh);
    assert(p5.scwh + scwh == scwh);
}

/// A recognition that has failed stays as it is, whatever is reported to it:
/// nothing is tried again.
pub proof fn failure_is_final(p: Progress, events: Seq<EventView>)
    requires
        p.failure is Some,
    ensures
        p.after_all(events) == p,
        p.after_all(events).outcome() == Some(Err::<Seq<ScreenData>, Error>(p.failure->0)),
    decreases events.len(),
{
    if events.len() > 0 {
        failure_is_final(p, events.drop_last());
    }
}

/// A recognition in progress.
pub struct Recognition {
    failure: Option<Error>,
    setup: u8,
    text_size: (u32, u32),
    digits_size: (u32, u32),
    til_death_texts: Vec<Option<String>>,
    scwh_texts: Vec<Option<String>>,
}

impl View for Recognition {
    type V = Progress;

    closed spec fn view(&self) -> Progress {
        Progress {
            failure: self.failure,
            setup: self.setup as int,
            text_size: self.text_size,
            digits_size: self.digits_size,
            til_death: texts_view(self.til_death_texts@),
            scwh: texts_view(self.scwh_texts@),
        }
    }
}

/// The records as plain values.
pub open spec fn records_view(records: Seq<EvaluationScreenData>) -> Seq<ScreenData> {
    records.map_values(|r: EvaluationScreenData| r@)
}

impl Recognition {
    /// Starts a recognition.
    pub fn new() -> (r: Self)
        ensures
            r@ == Progress::start(),
    {
        let r = Recognition {
            failure: None,
            setup: 0,
            text_size: (0, 0),
            digits_size: (0, 0),
            til_death_texts: Vec::new(),
            scwh_texts: Vec::new(),
        };
        assert(texts_view(r.til_death_texts@) == Seq::<Option<Seq<char>>>::empty());
        assert(texts_view(r.scwh_texts@) == Seq::<Option<Seq<char>>>::empty());
        r
    }

    fn read_step(&self, region: Region) -> (step: Step)
        ensures
            step == self@.read_step(region),
    {
        let size = match region.engine {
            Engine::Text => self.text_size,
            Engine::Digits => self.digits_size,
        };
        Step::ReadRegion { engine: region.engine, rect: scale_rect(region.rect, size.0, size.1) }
    }

    /// Tells what is to be done next.
    pub fn next_step(&self) -> (step: Step)
        ensures
            step == self@.next_step(),
    {
        if self.failure.is_some() {
            return Step::Done;
        }
        if self.setup == 0 {
            return Step::CreateEngine(Engine::Text);
        }
        if self.setup == 1 {
            return Step::CreateEngine(Engine::Digits);
        }
        if self.setup == 2 {
            return Step::LoadImage(Engine::Text);
        }
        if self.setup == 3 {
            return Step::LoadImage(Engine::Digits);
        }
        let til_death = Layout::TilDeath.regions();
        if self.til_death_texts.len() < til_death.len() {
            return self.read_step(til_death[self.til_death_texts.len()]);
        }
        let scwh = Layout::Scwh.regions();
        if self.scwh_texts.len() < scwh.len() {
            return self.read_step(scwh[self.scwh_texts.len()]);
        }
        Step::Done
    }

    /// Takes in what came of the step that [`Recognition::next_step`] asked
    /// for.
    pub fn advance(&mut self, event: Event)
        ensures
            final(self)@ == old(self)@.after(event@),
    {
        let step = self.next_step();
        match (step, event) {
            (Step::CreateEngine(_), Event::EngineCreated) => {
                self.setup = self.setup + 1;
            },
            (Step::CreateEngine(_), Event::EngineFailed) => {
                self.failure = Some(Error::TesseractInit);
            },
            (Step::LoadImage(Engine::Text), Event::ImageLoaded { width, height }) => {
                self.setup = self.setup + 1;
                self.text_size = (width, height);
            },
            (Step::LoadImage(Engine::Digits), Event::ImageLoaded { width, height }) => {
                self.setup = self.setup + 1;
                self.digits_size = (width, height);
            },
            (Step::LoadImage(_), Event::ImageRejected) => {
                self.failure = Some(Error::CouldNotReadImage);
            },
            (Step::ReadRegion { .. }, Event::Text(text)) => {
                let ghost pushed = text_view(text);
                if self.til_death_texts.len() < Layout::TilDeath.regions().len() {
                    let ghost before = self.til_death_texts@;
                    self.til_death_texts.push(text);
                    assert(texts_view(self.til_death_texts@) == texts_view(before).push(pushed));
                } else {
                    let ghost before = self.scwh_texts@;
                    self.scwh_texts.push(text);
                    assert(texts_view(self.scwh_texts@) == texts_view(before).push(pushed));
                }
            },
            _ => {},
        }
    }

    /// Tells how the recognition ended, once no step is left.
    pub fn outcome(&self) -> (r: Option<Result<Vec<EvaluationScreenData>, Error>>)
        ensures
            match r {
                Some(Ok(records)) => self@.outcome() == Some(
                    Ok::<Seq<ScreenData>, Error>(records_view(records@)),
                ),
                Some(Err(error)) => self@.outcome() == Some(Err::<Seq<ScreenData>, Error>(error)),
                None => self@.outcome() is None,
            },
    {
        match self.next_step() {
            Step::Done => {},
            _ => {
                return None;
            },
        }
        match self.failure {
            Some(error) => Some(Err(error)),
            None => {
                let records = EvaluationScreenData::recognize(
                    &self.til_death_texts,
                    &self.scwh_texts,
                );
                assert(records_view(records@) == seq![
                    til_death_record(self@.til_death),
                    scwh_record(self@.scwh),
                ]);
                Some(Ok(records))
            },
        }
    }
}

} // verus!
