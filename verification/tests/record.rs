use score_ocr::chart::{Difficulty, Rate};
use score_ocr::judgements::TapJudgementsMaybe;
use score_ocr::number::Decimal;
use score_ocr::record::{EvaluationScreenData, MINIMUM_EQUALITY_SCORE_TO_BE_PROBABLY_EQUAL};

fn nothing() -> EvaluationScreenData {
    EvaluationScreenData {
        rate: None,
        pack: None,
        eo_username: None,
        song: None,
        artist: None,
        wifescore: None,
        msd: None,
        ssr: None,
        judgements: None,
        difficulty: None,
        date: None,
    }
}

fn everything() -> EvaluationScreenData {
    EvaluationScreenData {
        rate: Some(Rate { x20: 21 }),
        pack: Some("Pack".to_string()),
        eo_username: Some("kangalioo".to_string()),
        song: Some("Crossing Field".to_string()),
        artist: Some("LiSA".to_string()),
        wifescore: Some(Decimal { micros: 99_530_000 }),
        msd: Some(Decimal { micros: 23_450_000 }),
        ssr: Some(Decimal { micros: 22_100_000 }),
        judgements: Some(TapJudgementsMaybe {
            marvelouses: Some(1000),
            perfects: Some(50),
            greats: Some(10),
            goods: Some(2),
            bads: Some(1),
            misses: Some(0),
        }),
        difficulty: Some(Difficulty::Hard),
        date: Some("2020-06-01".to_string()),
    }
}

#[test]
fn a_full_record_scores_all_weights_against_itself() {
    let x = everything();
    assert_eq!(x.equality_score(&x), 62);
}

#[test]
fn an_empty_record_scores_nothing() {
    assert_eq!(nothing().equality_score(&nothing()), 0);
    assert_eq!(nothing().equality_score(&everything()), 0);
    assert_eq!(everything().equality_score(&nothing()), 0);
}

#[test]
fn each_attribute_has_its_weight() {
    let full = everything();
    let mut x = nothing();
    x.rate = full.rate;
    assert_eq!(x.equality_score(&full), 2);
    let mut x = nothing();
    x.pack = full.pack.clone();
    assert_eq!(x.equality_score(&full), 3);
    let mut x = nothing();
    x.eo_username = full.eo_username.clone();
    assert_eq!(x.equality_score(&full), 5);
    let mut x = nothing();
    x.song = full.song.clone();
    assert_eq!(x.equality_score(&full), 6);
    let mut x = nothing();
    x.artist = full.artist.clone();
    assert_eq!(x.equality_score(&full), 3);
    let mut x = nothing();
    x.wifescore = full.wifescore;
    assert_eq!(x.equality_score(&full), 5);
    let mut x = nothing();
    x.msd = full.msd;
    assert_eq!(x.equality_score(&full), 6);
    let mut x = nothing();
    x.ssr = full.ssr;
    assert_eq!(x.equality_score(&full), 6);
    let mut x = nothing();
    x.difficulty = full.difficulty;
    assert_eq!(x.equality_score(&full), 2);
    let mut x = nothing();
    x.date = full.date.clone();
    assert_eq!(x.equality_score(&full), 2);
}

#[test]
fn each_judgement_has_its_weight() {
    let full = everything();
    let none = TapJudgementsMaybe::default();
    let weights = [
        (TapJudgementsMaybe { marvelouses: Some(1000), ..none }, 5),
        (TapJudgementsMaybe { perfects: Some(50), ..none }, 5),
        (TapJudgementsMaybe { greats: Some(10), ..none }, 5),
        (TapJudgementsMaybe { goods: Some(2), ..none }, 2),
        (TapJudgementsMaybe { bads: Some(1), ..none }, 2),
        (TapJudgementsMaybe { misses: Some(0), ..none }, 3),
    ];
    for (judgements, weight) in weights {
        let mut x = nothing();
        x.judgements = Some(judgements);
        assert_eq!(x.equality_score(&full), weight);
        assert_eq!(full.equality_score(&x), weight);
    }
    let mut x = nothing();
    x.judgements = Some(none);
    assert_eq!(x.equality_score(&full), 0);
}

#[test]
fn mismatches_add_nothing_and_take_nothing_away() {
    let full = everything();
    let mut other = everything();
    other.song = Some("Another Song".to_string());
    other.rate = Some(Rate { x20: 20 });
    other.difficulty = Some(Difficulty::Challenge);
    assert_eq!(full.equality_score(&other), 62 - 6 - 2 - 2);
    if let Some(judgements) = other.judgements.as_mut() {
        judgements.misses = Some(7);
        judgements.goods = None;
    }
    assert_eq!(full.equality_score(&other), 62 - 6 - 2 - 2 - 3 - 2);
}

#[test]
fn decimal_readings_match_within_a_hundredth() {
    let full = everything();
    let mut other = nothing();
    other.wifescore = Some(Decimal { micros: 99_520_000 });
    other.msd = Some(Decimal { micros: 23_460_000 });
    other.ssr = Some(Decimal { micros: 22_100_001 });
    assert_eq!(full.equality_score(&other), 5 + 6 + 6);
    other.wifescore = Some(Decimal { micros: 99_519_999 });
    other.msd = Some(Decimal { micros: 23_460_001 });
    other.ssr = Some(Decimal { micros: 22_000_000 });
    assert_eq!(full.equality_score(&other), 0);
}

#[test]
fn score_is_symmetric() {
    let full = everything();
    let mut other = everything();
    other.pack = None;
    other.artist = Some("Someone".to_string());
    other.wifescore = Some(Decimal { micros: 99_525_000 });
    other.judgements = Some(TapJudgementsMaybe {
        marvelouses: Some(1000),
        perfects: None,
        greats: Some(11),
        goods: Some(2),
        bads: None,
        misses: Some(0),
    });
    let there = full.equality_score(&other);
    let back = other.equality_score(&full);
    assert_eq!(there, back);
    assert_eq!(there, 62 - 3 - 3 - 5 - 5 - 2);
}

#[test]
fn score_against_itself_is_the_weight_of_what_is_there() {
    let mut x = nothing();
    x.song = Some("Song".to_string());
    x.msd = Some(Decimal { micros: -1 });
    x.judgements = Some(TapJudgementsMaybe {
        marvelouses: Some(1),
        misses: Some(0),
        ..TapJudgementsMaybe::default()
    });
    assert_eq!(x.equality_score(&x), 6 + 6 + 5 + 3);
    assert!(x.equality_score(&everything()) <= x.equality_score(&x));
    assert!(everything().equality_score(&x) <= x.equality_score(&x));
}

#[test]
fn more_attributes_never_lower_the_score() {
    let y = everything();
    let mut x = nothing();
    x.song = Some("Crossing Field".to_string());
    let base = x.equality_score(&y);
    assert_eq!(base, 6);
    let mut matching = x.clone();
    matching.artist = Some("LiSA".to_string());
    assert_eq!(matching.equality_score(&y), 9);
    let mut mismatching = x.clone();
    mismatching.artist = Some("Aimer".to_string());
    assert_eq!(mismatching.equality_score(&y), 6);
    let mut with_counts = x.clone();
    with_counts.judgements = Some(TapJudgementsMaybe {
        perfects: Some(50),
        greats: Some(99),
        ..TapJudgementsMaybe::default()
    });
    assert_eq!(with_counts.equality_score(&y), 11);
    assert_eq!(y.equality_score(&with_counts), 11);
}

#[test]
fn score_is_never_negative() {
    let a = everything();
    let mut b = everything();
    b.rate = Some(Rate { x20: 0 });
    b.pack = Some(String::new());
    b.eo_username = Some("x".to_string());
    b.song = Some("y".to_string());
    b.artist = Some("z".to_string());
    b.wifescore = Some(Decimal { micros: i64::MIN });
    b.msd = Some(Decimal { micros: i64::MAX });
    b.ssr = Some(Decimal { micros: 0 });
    b.difficulty = Some(Difficulty::Beginner);
    b.date = Some("never".to_string());
    b.judgements = Some(TapJudgementsMaybe {
        marvelouses: Some(1),
        perfects: Some(2),
        greats: Some(3),
        goods: Some(4),
        bads: Some(5),
        misses: Some(6),
    });
    assert_eq!(a.equality_score(&b), 0);
    assert_eq!(b.equality_score(&a), 0);
}

#[test]
fn threshold_is_ten() {
    assert_eq!(MINIMUM_EQUALITY_SCORE_TO_BE_PROBABLY_EQUAL, 10);
}

#[test]
fn default_record_has_nothing() {
    assert_eq!(EvaluationScreenData::default(), nothing());
    assert_eq!(score_ocr::EvaluationScreenData::default().equality_score(&everything()), 0);
}
