use score_ocr::chart::Rate;
use score_ocr::geometry::PixelRect;
use score_ocr::layout::{Engine, Layout};
use score_ocr::session::{data_path, Error, Event, Recognition, Step, FALLBACK_RESOLUTION};

fn set_up(width: u32, height: u32) -> Recognition {
    let mut session = Recognition::new();
    session.advance(Event::EngineCreated);
    session.advance(Event::EngineCreated);
    session.advance(Event::ImageLoaded { width, height });
    session.advance(Event::ImageLoaded { width, height });
    session
}

#[test]
fn engines_are_set_up_before_the_image_is_loaded() {
    let mut session = Recognition::new();
    assert_eq!(session.next_step(), Step::CreateEngine(Engine::Text));
    assert_eq!(session.outcome(), None);
    session.advance(Event::EngineCreated);
    assert_eq!(session.next_step(), Step::CreateEngine(Engine::Digits));
    session.advance(Event::EngineCreated);
    assert_eq!(session.next_step(), Step::LoadImage(Engine::Text));
    session.advance(Event::ImageLoaded { width: 1920, height: 1080 });
    assert_eq!(session.next_step(), Step::LoadImage(Engine::Digits));
    session.advance(Event::ImageLoaded { width: 1920, height: 1080 });
    assert_eq!(
        session.next_step(),
        Step::ReadRegion {
            engine: Engine::Digits,
            rect: PixelRect { x: 914, y: 371, width: 98, height: 19 },
        }
    );
    assert_eq!(session.outcome(), None);
}

#[test]
fn an_engine_that_fails_ends_the_recognition() {
    let mut session = Recognition::new();
    session.advance(Event::EngineFailed);
    assert_eq!(session.next_step(), Step::Done);
    assert_eq!(session.outcome(), Some(Err(Error::TesseractInit)));

    let mut session = Recognition::new();
    session.advance(Event::EngineCreated);
    session.advance(Event::EngineFailed);
    assert_eq!(session.next_step(), Step::Done);
    assert_eq!(session.outcome(), Some(Err(Error::TesseractInit)));
    session.advance(Event::EngineCreated);
    assert_eq!(session.outcome(), Some(Err(Error::TesseractInit)));
}

#[test]
fn an_image_that_cannot_be_read_ends_the_recognition() {
    let mut session = Recognition::new();
    session.advance(Event::EngineCreated);
    session.advance(Event::EngineCreated);
    session.advance(Event::ImageRejected);
    assert_eq!(session.next_step(), Step::Done);
    assert_eq!(session.outcome(), Some(Err(Error::CouldNotReadImage)));

    let mut session = Recognition::new();
    session.advance(Event::EngineCreated);
    session.advance(Event::EngineCreated);
    session.advance(Event::ImageLoaded { width: 800, height: 600 });
    session.advance(Event::ImageRejected);
    assert_eq!(session.outcome(), Some(Err(Error::CouldNotReadImage)));
}

#[test]
fn events_that_do_not_fit_the_step_change_nothing() {
    let mut session = Recognition::new();
    session.advance(Event::Text(Some("1.0".to_string())));
    session.advance(Event::ImageLoaded { width: 1, height: 1 });
    session.advance(Event::ImageRejected);
    assert_eq!(session.next_step(), Step::CreateEngine(Engine::Text));
    let mut session = set_up(1920, 1080);
    session.advance(Event::EngineFailed);
    session.advance(Event::ImageRejected);
    session.advance(Event::EngineCreated);
    assert_eq!(
        session.next_step(),
        Step::ReadRegion {
            engine: Engine::Digits,
            rect: PixelRect { x: 914, y: 371, width: 98, height: 19 },
        }
    );
}

#[test]
fn regions_are_scaled_to_the_image_of_their_engine() {
    let mut session = Recognition::new();
    session.advance(Event::EngineCreated);
    session.advance(Event::EngineCreated);
    session.advance(Event::ImageLoaded { width: 3840, height: 2160 });
    session.advance(Event::ImageLoaded { width: 1280, height: 720 });
    assert_eq!(
        session.next_step(),
        Step::ReadRegion {
            engine: Engine::Digits,
            rect: PixelRect { x: 609, y: 247, width: 65, height: 12 },
        }
    );
    session.advance(Event::Text(None));
    assert_eq!(
        session.next_step(),
        Step::ReadRegion {
            engine: Engine::Text,
            rect: PixelRect { x: 482, y: 36, width: 3354, height: 110 },
        }
    );
}

#[test]
fn all_regions_of_both_layouts_are_read_in_order() {
    let mut session = set_up(1920, 1080);
    let mut asked: Vec<(Engine, PixelRect)> = Vec::new();
    let mut steps = 0;
    loop {
        match session.next_step() {
            Step::ReadRegion { engine, rect } => {
                asked.push((engine, rect));
                session.advance(Event::Text(None));
            }
            Step::Done => break,
            other => panic!("unexpected step {:?}", other),
        }
        steps += 1;
        assert!(steps <= 25);
    }
    let mut expected: Vec<(Engine, PixelRect)> = Vec::new();
    for layout in [Layout::TilDeath, Layout::Scwh] {
        for region in layout.regions() {
            expected.push((
                region.engine,
                PixelRect {
                    x: region.rect.x as u64,
                    y: region.rect.y as u64,
                    width: region.rect.width as u64,
                    height: region.rect.height as u64,
                },
            ));
        }
    }
    assert_eq!(asked.len(), 25);
    assert_eq!(asked, expected);
}

#[test]
fn a_full_run_gives_two_records() {
    let mut session = set_up(1920, 1080);
    let til_death = [
        "1.05", "Pack", "Logged in as kangalioo (1)", "Crossing Field", "LiSA", "99.53", "23.45",
        "22.10", "1000/50/10/2/1/0", "HD",
    ];
    for text in til_death {
        assert!(matches!(session.next_step(), Step::ReadRegion { .. }));
        assert_eq!(session.outcome(), None);
        session.advance(Event::Text(Some(text.to_string())));
    }
    for _ in 0..15 {
        assert!(matches!(session.next_step(), Step::ReadRegion { .. }));
        assert_eq!(session.outcome(), None);
        session.advance(Event::Text(Some(String::new())));
    }
    assert_eq!(session.next_step(), Step::Done);
    session.advance(Event::Text(Some("late".to_string())));
    let records = match session.outcome() {
        Some(Ok(records)) => records,
        other => panic!("unexpected outcome {:?}", other),
    };
    assert_eq!(records.len(), 2);
    assert_eq!(records[0].rate, Some(Rate { x20: 21 }));
    assert_eq!(records[0].eo_username, Some("kangalioo".to_string()));
    assert_eq!(records[0].song, Some("Crossing Field".to_string()));
    assert!(records[0].judgements.is_some());
    assert_eq!(records[1].song, None);
    assert_eq!(records[1].judgements, None);
    assert_eq!(records[0].equality_score(&records[1]), 0);
}

#[test]
fn engines_have_their_models() {
    assert_eq!(Engine::Text.model(), "eng");
    assert_eq!(Engine::Digits.model(), "digitsall_layer");
    assert_eq!(data_path(), "ocr_data");
    assert_eq!(FALLBACK_RESOLUTION, 96);
}
