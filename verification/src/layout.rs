//! The two known screen layouts: where each attribute stands, which engine
//! reads it, and how the record is put together from what was read.
//!
//! A known limit: in both layouts the judgements are read from the entry that
//! the screen lists first among the scores on the chart, and that is the best
//! of them. They are the judgements of the score on the screen only where
//! that score is the player's best on the chart.

use vstd::prelude::*;
use crate::chart::{difficulty_of_code, parse_difficulty, parse_rate, rate_reading, Difficulty, Rate};
use crate::geometry::Rectangle;
use crate::judgements::{
    parse_slash_separated_judgement_string,
    slash_separated_judgements,
    TapJudgementsMaybe,
};
use crate::number::{count_of, decimal_of, parse_count, parse_decimal, Decimal};
use crate::record::{EvaluationScreenData, ScreenData};
use crate::template::{
    artist_of,
    nonempty,
    parse_artist,
    parse_plain,
    parse_song_and_rate,
    parse_username,
    plain_of,
    song_and_rate_of,
    username_of,
};
use crate::text::{text_view, trim, trimmed};

verus! {

/// The recognition engine that reads a region.
#[derive(Clone, Copy, Debug, PartialEq, Eq, Hash, Structural)]
pub enum Engine {
    /// Reads words.
    Text,
    /// Reads digits.
    Digits,
}

impl Engine {
    /// The name of the trained model that the engine is set up with.
    pub open spec fn model_name(self) -> Seq<char> {
        match self {
            Engine::Text => "eng"@,
            Engine::Digits => "digitsall_layer"@,
        }
    }

    /// Names the trained model that the engine is set up with.
    pub fn model(&self) -> (name: &'static str)
        ensures
            name@ == self.model_name(),
    {
        match self {
            Engine::Text => "eng",
            Engine::Digits => "digitsall_layer",
        }
    }
}

/// A known layout of the evaluation screen.
#[derive(Clone, Copy, Debug, PartialEq, Eq, Hash, Structural)]
pub enum Layout {
    TilDeath,
    Scwh,
}

/// What a region of a layout shows.
#[derive(Clone, Copy, Debug, PartialEq, Eq, Hash, Structural)]
pub enum Field {
    Rate,
    Pack,
    EoUsername,
    Song,
    SongAndRate,
    Artist,
    Wifescore,
    Msd,
    Ssr,
    Judgements,
    Marvelouses,
    Perfects,
    Greats,
    Goods,
    Bads,
    Misses,
    Difficulty,
    Date,
}

/// A region of a layout: what it shows, the engine that reads it, and where
/// it stands in the reference frame.
#[derive(Clone, Copy, Debug, PartialEq, Eq, Hash, Structural)]
pub struct Region {
    pub field: Field,
    pub engine: Engine,
    pub rect: Rectangle,
}

/// The region that shows `field` at the given place.
pub open spec fn region_at(
    field: Field,
    engine: Engine,
    x: u32,
    y: u32,
    width: u32,
    height: u32,
) -> Region {
    Region { field, engine, rect: Rectangle { x, y, width, height } }
}

/// The regions of the Til Death layout, in the order in which they are read.
pub open spec fn til_death_layout() -> Seq<Region> {
    seq![
        region_at(Field::Rate, Engine::Digits, 914, 371, 98, 19),
        region_at(Field::Pack, Engine::Text, 241, 18, 1677, 55),
        region_at(Field::EoUsername, Engine::Text, 461, 1004, 1111, 40),
        region_at(Field::Song, Engine::Text, 760, 322, 406, 32),
        region_at(Field::Artist, Engine::Text, 747, 350, 417, 25),
        region_at(Field::Wifescore, Engine::Digits, 53, 339, 128, 40),
        region_at(Field::Msd, Engine::Digits, 33, 385, 209, 51),
        region_at(Field::Ssr, Engine::Digits, 535, 385, 209, 51),
        region_at(Field::Judgements, Engine::Digits, 1422, 171, 308, 21),
        region_at(Field::Difficulty, Engine::Text, 646, 324, 100, 56),
    ]
}

/// The regions of the SCWH layout, in the order in which they are read.
pub open spec fn scwh_layout() -> Seq<Region> {
    seq![
        region_at(Field::SongAndRate, Engine::Text, 78, 96, 952, 51),
        region_at(Field::Pack, Engine::Text, 1268, 0, 630, 45),
        region_at(Field::EoUsername, Engine::Text, 1567, 786, 287, 55),
        region_at(Field::Artist, Engine::Text, 163, 146, 871, 43),
        region_at(Field::Wifescore, Engine::Digits, 460, 199, 181, 57),
        region_at(Field::Msd, Engine::Digits, 85, 156, 85, 32),
        region_at(Field::Ssr, Engine::Digits, 83, 195, 143, 61),
        region_at(Field::Marvelouses, Engine::Digits, 456, 264, 193, 51),
        region_at(Field::Perfects, Engine::Digits, 456, 313, 193, 51),
        region_at(Field::Greats, Engine::Digits, 456, 362, 193, 51),
        region_at(Field::Goods, Engine::Digits, 456, 410, 193, 51),
        region_at(Field::Bads, Engine::Digits, 456, 460, 193, 51),
        region_at(Field::Misses, Engine::Digits, 456, 508, 193, 51),
        region_at(Field::Difficulty, Engine::Text, 233, 225, 62, 31),
        region_at(Field::Date, Engine::Text, 1399, 920, 454, 49),
    ]
}

/// The regions of a layout, in the order in which they are read.
pub open spec fn layout_regions(layout: Layout) -> Seq<Region> {
    match layout {
        Layout::TilDeath => til_death_layout(),
        Layout::Scwh => scwh_layout(),
    }
}

fn region(field: Field, engine: Engine, x: u32, y: u32, width: u32, height: u32) -> (r: Region)
    ensures
        r == region_at(field, engine, x, y, width, height),
{
    Region { field, engine, rect: Rectangle { x, y, width, height } }
}

impl Layout {
    /// Lists the regions of this layout, in the order in which they are read.
    pub fn regions(&self) -> (r: Vec<Region>)
        ensures
            r@ == layout_regions(*self),
    {
        match self {
            Layout::TilDeath => {
                let r = vec![
                    region(Field::Rate, Engine::Digits, 914, 371, 98, 19),
                    region(Field::Pack, Engine::Text, 241, 18, 1677, 55),
                    region(Field::EoUsername, Engine::Text, 461, 1004, 1111, 40),
                    region(Field::Song, Engine::Text, 760, 322, 406, 32),
                    region(Field::Artist, Engine::Text, 747, 350, 417, 25),
                    region(Field::Wifescore, Engine::Digits, 53, 339, 128, 40),
                    region(Field::Msd, Engine::Digits, 33, 385, 209, 51),
                    region(Field::Ssr, Engine::Digits, 535, 385, 209, 51),
                    region(Field::Judgements, Engine::Digits, 1422, 171, 308, 21),
                    region(Field::Difficulty, Engine::Text, 646, 324, 100, 56),
                ];
                assert(r@ =~= til_death_layout());
                r
            },
            Layout::Scwh => {
                let r = vec![
                    region(Field::SongAndRate, Engine::Text, 78, 96, 952, 51),
                    region(Field::Pack, Engine::Text, 1268, 0, 630, 45),
                    region(Field::EoUsername, Engine::Text, 1567, 786, 287, 55),
                    region(Field::Artist, Engine::Text, 163, 146, 871, 43),
                    region(Field::Wifescore, Engine::Digits, 460, 199, 181, 57),
                    region(Field::Msd, Engine::Digits, 85, 156, 85, 32),
                    region(Field::Ssr, Engine::Digits, 83, 195, 143, 61),
                    region(Field::Marvelouses, Engine::Digits, 456, 264, 193, 51),
                    region(Field::Perfects, Engine::Digits, 456, 313, 193, 51),
                    region(Field::Greats, Engine::Digits, 456, 362, 193, 51),
                    region(Field::Goods, Engine::Digits, 456, 410, 193, 51),
                    region(Field::Bads, Engine::Digits, 456, 460, 193, 51),
                    region(Field::Misses, Engine::Digits, 456, 508, 193, 51),
                    region(Field::Difficulty, Engine::Text, 233, 225, 62, 31),
                    region(Field::Date, Engine::Text, 1399, 920, 454, 49),
                ];
                assert(r@ =~= scwh_layout());
                r
            },
        }
    }
}

/// What was read from each region of a layout, as plain values.
pub open spec fn texts_view(texts: Seq<Option<String>>) -> Seq<Option<Seq<char>>> {
    texts.map_values(|t: Option<String>| text_view(t))
}

/// The trimmed text of region `i`; `None` where nothing was read there or
/// `texts` has no such place.
pub open spec fn recognized(texts: Seq<Option<Seq<char>>>, i: int) -> Option<Seq<char>> {
    if 0 <= i < texts.len() {
        match texts[i] {
            Some(t) => Some(trimmed(t)),
            None => None,
        }
    } else {
        None
    }
}

/// What `parse` makes of the text of a region; `None` where nothing was read.
pub open spec fn read<T>(text: Option<Seq<char>>, parse: spec_fn(Seq<char>) -> Option<T>) -> Option<
    T,
> {
    match text {
        Some(t) => parse(t),
        None => None,
    }
}

/// The record of the Til Death layout, from the texts of its regions in the
/// order of [`til_death_layout`]. This layout shows no date of the score.
pub open spec fn til_death_record(texts: Seq<Option<Seq<char>>>) -> ScreenData {
    ScreenData {
        rate: read(recognized(texts, 0), |t: Seq<char>| rate_reading(t)),
        pack: read(recognized(texts, 1), |t: Seq<char>| plain_of(t)),
        eo_username: read(recognized(texts, 2), |t: Seq<char>| username_of(t)),
        song: read(recognized(texts, 3), |t: Seq<char>| plain_of(t)),
        artist: read(recognized(texts, 4), |t: Seq<char>| plain_of(t)),
        wifescore: read(recognized(texts, 5), |t: Seq<char>| decimal_of(t)),
        msd: read(recognized(texts, 6), |t: Seq<char>| decimal_of(t)),
        ssr: read(recognized(texts, 7), |t: Seq<char>| decimal_of(t)),
        judgements: read(
            recognized(texts, 8),
            |t: Seq<char>| Some(slash_separated_judgements(t)),
        ),
        difficulty: read(recognized(texts, 9), |t: Seq<char>| difficulty_of_code(t)),
        date: None,
    }
}

/// The judgements of the SCWH layout, each count from a region of its own.
/// `None` where no count was read.
pub open spec fn scwh_judgements(texts: Seq<Option<Seq<char>>>) -> Option<TapJudgementsMaybe> {
    let counts = TapJudgementsMaybe {
        marvelouses: read(recognized(texts, 7), |t: Seq<char>| count_of(t)),
        perfects: read(recognized(texts, 8), |t: Seq<char>| count_of(t)),
        greats: read(recognized(texts, 9), |t: Seq<char>| count_of(t)),
        goods: read(recognized(texts, 10), |t: Seq<char>| count_of(t)),
        bads: read(recognized(texts, 11), |t: Seq<char>| count_of(t)),
        misses: read(recognized(texts, 12), |t: Seq<char>| count_of(t)),
    };
    if counts == TapJudgementsMaybe::empty() {
        None
    } else {
        Some(counts)
    }
}

/// The record of the SCWH layout, from the texts of its regions in the order
/// of [`scwh_layout`]. Its first region holds the song's title and the rate.
pub open spec fn scwh_record(texts: Seq<Option<Seq<char>>>) -> ScreenData {
    let song_and_rate = read(recognized(texts, 0), |t: Seq<char>| song_and_rate_of(t));
    ScreenData {
        rate: match song_and_rate {
            Some((_, rate)) => rate_reading(rate),
            None => None,
        },
        pack: read(recognized(texts, 1), |t: Seq<char>| plain_of(t)),
        eo_username: read(recognized(texts, 2), |t: Seq<char>| plain_of(t)),
        song: match song_and_rate {
            Some((song, _)) => nonempty(song),
            None => None,
        },
        artist: read(recognized(texts, 3), |t: Seq<char>| artist_of(t)),
        wifescore: read(recognized(texts, 4), |t: Seq<char>| decimal_of(t)),
        msd: read(recognized(texts, 5), |t: Seq<char>| decimal_of(t)),
        ssr: read(recognized(texts, 6), |t: Seq<char>| decimal_of(t)),
        judgements: scwh_judgements(texts),
        difficulty: read(recognized(texts, 13), |t: Seq<char>| difficulty_of_code(t)),
        date: read(recognized(texts, 14), |t: Seq<char>| plain_of(t)),
    }
}

/// The text of region `i`, trimmed.
fn recognized_text(texts: &Vec<Option<String>>, i: usize) -> (r: Option<&str>)
    ensures
        match r {
            Some(t) => recognized(texts_view(texts@), i as int) == Some(t@),
            None => recognized(texts_view(texts@), i as int) is None,
        },
{
    if i < texts.len() {
        match &texts[i] {
            Some(t) => Some(trim(t.as_str())),
            None => None,
        }
    } else {
        None
    }
}

fn read_rate(texts: &Vec<Option<String>>, i: usize) -> (r: Option<Rate>)
    ensures
        r == read(recognized(texts_view(texts@), i as int), |t: Seq<char>| rate_reading(t)),
{
    match recognized_text(texts, i) {
        Some(t) => parse_rate(t),
        None => None,
    }
}

fn read_plain(texts: &Vec<Option<String>>, i: usize) -> (r: Option<String>)
    ensures
        text_view(r) == read(recognized(texts_view(texts@), i as int), |t: Seq<char>| plain_of(t)),
{
    match recognized_text(texts, i) {
        Some(t) => parse_plain(t),
        None => None,
    }
}

fn read_decimal(texts: &Vec<Option<String>>, i: usize) -> (r: Option<Decimal>)
    ensures
        r == read(recognized(texts_view(texts@), i as int), |t: Seq<char>| decimal_of(t)),
{
    match recognized_text(texts, i) {
        Some(t) => parse_decimal(t),
        None => None,
    }
}

fn read_count(texts: &Vec<Option<String>>, i: usize) -> (r: Option<u32>)
    ensures
        r == read(recognized(texts_view(texts@), i as int), |t: Seq<char>| count_of(t)),
{
    match recognized_text(texts, i) {
        Some(t) => parse_count(t),
        None => None,
    }
}

fn read_difficulty(texts: &Vec<Option<String>>, i: usize) -> (r: Option<Difficulty>)
    ensures
        r == read(recognized(texts_view(texts@), i as int), |t: Seq<char>| difficulty_of_code(t)),
{
    match recognized_text(texts, i) {
        Some(t) => parse_difficulty(t),
        None => None,
    }
}

/// Puts the record of the Til Death layout together from what was read.
///
/// `texts` holds, for each region of the layout in its order, the text that
/// the region's engine read there, or `None` where it read none.
pub fn recognize_til_death(texts: &Vec<Option<String>>) -> (data: EvaluationScreenData)
    ensures
        data@ == til_death_record(texts_view(texts@)),
{
    EvaluationScreenData {
        rate: read_rate(texts, 0),
        pack: read_plain(texts, 1),
        eo_username: match recognized_text(texts, 2) {
            Some(t) => parse_username(t),
            None => None,
        },
        song: read_plain(texts, 3),
        artist: read_plain(texts, 4),
        wifescore: read_decimal(texts, 5),
        msd: read_decimal(texts, 6),
        ssr: read_decimal(texts, 7),
        judgements: match recognized_text(texts, 8) {
            Some(t) => parse_slash_separated_judgement_string(t),
            None => None,
        },
        difficulty: read_difficulty(texts, 9),
        date: None,
    }
}

/// Puts the record of the SCWH layout together from what was read.
///
/// `texts` holds, for each region of the layout in its order, the text that
/// the region's engine read there, or `None` where it read none.
pub fn recognize_scwh(texts: &Vec<Option<String>>) -> (data: EvaluationScreenData)
    ensures
        data@ == scwh_record(texts_view(texts@)),
{
    let song_and_rate = match recognized_text(texts, 0) {
        Some(t) => parse_song_and_rate(t),
        None => None,
    };
    let (song, rate) = match song_and_rate {
        Some((song, rate)) => (parse_nonempty(song), parse_rate(rate.as_str())),
        None => (None, None),
    };
    let counts = TapJudgementsMaybe {
        marvelouses: read_count(texts, 7),
        perfects: read_count(texts, 8),
        greats: read_count(texts, 9),
        goods: read_count(texts, 10),
        bads: read_count(texts, 11),
        misses: read_count(texts, 12),
    };
    let judgements = if counts.marvelouses.is_none() && counts.perfects.is_none()
        && counts.greats.is_none() && counts.goods.is_none() && counts.bads.is_none()
        && counts.misses.is_none() {
        None
    } else {
        Some(counts)
    };
    EvaluationScreenData {
        rate,
        pack: read_plain(texts, 1),
        eo_username: read_plain(texts, 2),
        song,
        artist: match recognized_text(texts, 3) {
            Some(t) => parse_artist(t),
            None => None,
        },
        wifescore: read_decimal(texts, 4),
        msd: read_decimal(texts, 5),
        ssr: read_decimal(texts, 6),
        judgements,
        difficulty: read_difficulty(texts, 13),
        date: read_plain(texts, 14),
    }
}

fn parse_nonempty(text: String) -> (r: Option<String>)
    ensures
        text_view(r) == nonempty(text@),
{
    if text.as_str().is_empty() {
        None
    } else {
        Some(text)
    }
}

impl EvaluationScreenData {
    /// Puts together the records of both layouts: first Til Death, then SCWH.
    ///
    /// Both are always made, whichever layout the screenshot has: the one
    /// that does not fit comes out with few attributes or none.
    pub fn recognize(til_death_texts: &Vec<Option<String>>, scwh_texts: &Vec<Option<String>>) -> (r:
        Vec<Self>)
        ensures
            r.len() == 2,
            r[0]@ == til_death_record(texts_view(til_death_texts@)),
            r[1]@ == scwh_record(texts_view(scwh_texts@)),
    {
        vec![recognize_til_death(til_death_texts), recognize_scwh(scwh_texts)]
    }
}

} // verus!
