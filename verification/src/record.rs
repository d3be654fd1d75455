//! The record read from one evaluation screen, and the score that tells how
//! likely two records describe the same play.

use vstd::prelude::*;
use crate::chart::{Difficulty, Rate};
use crate::judgements::TapJudgementsMaybe;
use crate::number::Decimal;
use crate::text::text_view;

verus! {

/// Two records with at least this equality score are probably the same score.
pub const MINIMUM_EQUALITY_SCORE_TO_BE_PROBABLY_EQUAL: i32 = 10;

pub const RATE_WEIGHT: i32 = 2;

pub const PACK_WEIGHT: i32 = 3;

pub const EO_USERNAME_WEIGHT: i32 = 5;

pub const SONG_WEIGHT: i32 = 6;

pub const ARTIST_WEIGHT: i32 = 3;

pub const WIFESCORE_WEIGHT: i32 = 5;

pub const MSD_WEIGHT: i32 = 6;

pub const SSR_WEIGHT: i32 = 6;

pub const DIFFICULTY_WEIGHT: i32 = 2;

pub const DATE_WEIGHT: i32 = 2;

pub const MARVELOUSES_WEIGHT: i32 = 5;

pub const PERFECTS_WEIGHT: i32 = 5;

pub const GREATS_WEIGHT: i32 = 5;

pub const GOODS_WEIGHT: i32 = 2;

pub const BADS_WEIGHT: i32 = 2;

pub const MISSES_WEIGHT: i32 = 3;

/// What one evaluation screen shows of a score. Each attribute is read on its
/// own; one that was not read is `None`.
#[derive(Debug, Clone, PartialEq)]
pub struct EvaluationScreenData {
    pub rate: Option<Rate>,
    pub pack: Option<String>,
    pub eo_username: Option<String>,
    pub song: Option<String>,
    pub artist: Option<String>,
    /// A percentage, from 0 to 100.
    pub wifescore: Option<Decimal>,
    pub msd: Option<Decimal>,
    pub ssr: Option<Decimal>,
    pub judgements: Option<TapJudgementsMaybe>,
    pub difficulty: Option<Difficulty>,
    pub date: Option<String>,
}

/// A record as plain values: each text is the sequence of its characters.
pub struct ScreenData {
    pub rate: Option<Rate>,
    pub pack: Option<Seq<char>>,
    pub eo_username: Option<Seq<char>>,
    pub song: Option<Seq<char>>,
    pub artist: Option<Seq<char>>,
    pub wifescore: Option<Decimal>,
    pub msd: Option<Decimal>,
    pub ssr: Option<Decimal>,
    pub judgements: Option<TapJudgementsMaybe>,
    pub difficulty: Option<Difficulty>,
    pub date: Option<Seq<char>>,
}

impl View for EvaluationScreenData {
    type V = ScreenData;

    open spec fn view(&self) -> ScreenData {
        ScreenData {
            rate: self.rate,
            pack: text_view(self.pack),
            eo_username: text_view(self.eo_username),
            song: text_view(self.song),
            artist: text_view(self.artist),
            wifescore: self.wifescore,
            msd: self.msd,
            ssr: self.ssr,
            judgements: self.judgements,
            difficulty: self.difficulty,
            date: text_view(self.date),
        }
    }
}

impl ScreenData {
    /// The record of which nothing is known.
    pub open spec fn empty() -> ScreenData {
        ScreenData {
            rate: None,
            pack: None,
            eo_username: None,
            song: None,
            artist: None,
            wifescore: None,
            msd: None,
            ssr: None,
            judgements: None,
            difficulty: None,
            date: None,
        }
    }
}

impl Default for EvaluationScreenData {
    /// The record of which nothing is known.
    fn default() -> (r: Self)
        ensures
            r@ == ScreenData::empty(),
    {
        EvaluationScreenData {
            rate: None,
            pack: None,
            eo_username: None,
            song: None,
            artist: None,
            wifescore: None,
            msd: None,
            ssr: None,
            judgements: None,
            difficulty: None,
            date: None,
        }
    }
}

/// What an attribute adds to the score: its weight where both sides have it
/// and the two values are equal, else nothing.
pub open spec fn credit<T>(a: Option<T>, b: Option<T>, weight: int) -> int {
    match (a, b) {
        (Some(x), Some(y)) => if x == y {
            weight
        } else {
            0
        },
        _ => 0,
    }
}

/// What a decimal attribute adds to the score: its weight where both sides
/// have it and the two readings are within a hundredth, else nothing.
pub open spec fn credit_close(a: Option<Decimal>, b: Option<Decimal>, weight: int) -> int {
    match (a, b) {
        (Some(x), Some(y)) => if x.close_to(y) {
            weight
        } else {
            0
        },
        _ => 0,
    }
}

/// What the six judgement counts add to the score.
pub open spec fn judgement_score(a: TapJudgementsMaybe, b: TapJudgementsMaybe) -> int {
    credit(a.marvelouses, b.marvelouses, MARVELOUSES_WEIGHT as int) + credit(
        a.perfects,
        b.perfects,
        PERFECTS_WEIGHT as int,
    ) + credit(a.greats, b.greats, GREATS_WEIGHT as int) + credit(
        a.goods,
        b.goods,
        GOODS_WEIGHT as int,
    ) + credit(a.bads, b.bads, BADS_WEIGHT as int) + credit(a.misses, b.misses, MISSES_WEIGHT as int)
}

/// What the judgements add to the score: nothing unless both sides have
/// them.
pub open spec fn judgements_credit(
    a: Option<TapJudgementsMaybe>,
    b: Option<TapJudgementsMaybe>,
) -> int {
    match (a, b) {
        (Some(x), Some(y)) => judgement_score(x, y),
        _ => 0,
    }
}

/// The equality score of two records: the sum, over all attributes, of what
/// each adds.
pub open spec fn equality_score_of(a: ScreenData, b: ScreenData) -> int {
    credit(a.rate, b.rate, RATE_WEIGHT as int) + credit(a.pack, b.pack, PACK_WEIGHT as int)
        + credit(a.eo_username, b.eo_username, EO_USERNAME_WEIGHT as int) + credit(
        a.song,
        b.song,
        SONG_WEIGHT as int,
    ) + credit(a.artist, b.artist, ARTIST_WEIGHT as int) + credit_close(
        a.wifescore,
        b.wifescore,
        WIFESCORE_WEIGHT as int,
    ) + credit_close(a.msd, b.msd, MSD_WEIGHT as int) + credit_close(
        a.ssr,
        b.ssr,
        SSR_WEIGHT as int,
    ) + credit(a.difficulty, b.difficulty, DIFFICULTY_WEIGHT as int) + credit(
        a.date,
        b.date,
        DATE_WEIGHT as int,
    ) + judgements_credit(a.judgements, b.judgements)
}

fn text_credit(a: &Option<String>, b: &Option<String>, weight: i32) -> (r: i32)
    ensures
        r == credit(text_view(*a), text_view(*b), weight as int),
{
    match (a, b) {
        (Some(x), Some(y)) => if *x == *y {
            weight
        } else {
            0
        },
        _ => 0,
    }
}

fn count_credit(a: Option<u32>, b: Option<u32>, weight: i32) -> (r: i32)
    ensures
        r == credit(a, b, weight as int),
{
    match (a, b) {
        (Some(x), Some(y)) => if x == y {
            weight
        } else {
            0
        },
        _ => 0,
    }
}

fn decimal_credit(a: Option<Decimal>, b: Option<Decimal>, weight: i32) -> (r: i32)
    ensures
        r == credit_close(a, b, weight as int),
{
    match (a, b) {
        (Some(x), Some(y)) => if x.is_close_to(&y) {
            weight
        } else {
            0
        },
        _ => 0,
    }
}

fn rate_credit(a: Option<Rate>, b: Option<Rate>) -> (r: i32)
    ensures
        r == credit(a, b, RATE_WEIGHT as int),
{
    match (a, b) {
        (Some(x), Some(y)) => if x == y {
            RATE_WEIGHT
        } else {
            0
        },
        _ => 0,
    }
}

fn difficulty_credit(a: Option<Difficulty>, b: Option<Difficulty>) -> (r: i32)
    ensures
        r == credit(a, b, DIFFICULTY_WEIGHT as int),
{
    match (a, b) {
        (Some(x), Some(y)) => if x == y {
            DIFFICULTY_WEIGHT
        } else {
            0
        },
        _ => 0,
    }
}

impl EvaluationScreenData {
    /// Scores how much two records agree.
    ///
    /// Every attribute that both records have, with equal values, adds its
    /// weight; decimal readings count as equal within a hundredth. An
    /// attribute that one side lacks, or on which the two differ, adds nothing
    /// and takes nothing away.
    pub fn equality_score(&self, other: &Self) -> (score: i32)
        ensures
            score == equality_score_of(self@, other@),
    {
        let mut score: i32 = 0;
        score = score + rate_credit(self.rate, other.rate);
        score = score + text_credit(&self.pack, &other.pack, PACK_WEIGHT);
        score = score + text_credit(&self.eo_username, &other.eo_username, EO_USERNAME_WEIGHT);
        score = score + text_credit(&self.song, &other.song, SONG_WEIGHT);
        score = score + text_credit(&self.artist, &other.artist, ARTIST_WEIGHT);
        score = score + decimal_credit(self.wifescore, other.wifescore, WIFESCORE_WEIGHT);
        score = score + decimal_credit(self.msd, other.msd, MSD_WEIGHT);
        score = score + decimal_credit(self.ssr, other.ssr, SSR_WEIGHT);
        score = score + difficulty_credit(self.difficulty, other.difficulty);
        score = score + text_credit(&self.date, &other.date, DATE_WEIGHT);
        if let (Some(a), Some(b)) = (&self.judgements, &other.judgements) {
            score = score + count_credit(a.marvelouses, b.marvelouses, MARVELOUSES_WEIGHT);
            score = score + count_credit(a.perfects, b.perfects, PERFECTS_WEIGHT);
            score = score + count_credit(a.greats, b.greats, GREATS_WEIGHT);
            score = score + count_credit(a.goods, b.goods, GOODS_WEIGHT);
            score = score + count_credit(a.bads, b.bads, BADS_WEIGHT);
            score = score + count_credit(a.misses, b.misses, MISSES_WEIGHT);
        }
        score
    }
}

/// `weight` where the attribute is there, else nothing.
pub open spec fn weight_if(present: bool, weight: int) -> int {
    if present {
        weight
    } else {
        0
    }
}

/// The sum of the weights of the judgement counts that `j` has.
pub open spec fn present_judgement_weight(j: TapJudgementsMaybe) -> int {
    weight_if(j.marvelouses is Some, MARVELOUSES_WEIGHT as int) + weight_if(
        j.perfects is Some,
        PERFECTS_WEIGHT as int,
    ) + weight_if(j.greats is Some, GREATS_WEIGHT as int) + weight_if(
        j.goods is Some,
        GOODS_WEIGHT as int,
    ) + weight_if(j.bads is Some, BADS_WEIGHT as int) + weight_if(
        j.misses is Some,
        MISSES_WEIGHT as int,
    )
}

/// The sum of the weights of the attributes that `x` has.
pub open spec fn present_weight(x: ScreenData) -> int {
    weight_if(x.rate is Some, RATE_WEIGHT as int) + weight_if(x.pack is Some, PACK_WEIGHT as int)
        + weight_if(x.eo_username is Some, EO_USERNAME_WEIGHT as int) + weight_if(
        x.song is Some,
        SONG_WEIGHT as int,
    ) + weight_if(x.artist is Some, ARTIST_WEIGHT as int) + weight_if(
        x.wifescore is Some,
        WIFESCORE_WEIGHT as int,
    ) + weight_if(x.msd is Some, MSD_WEIGHT as int) + weight_if(x.ssr is Some, SSR_WEIGHT as int)
        + weight_if(x.difficulty is Some, DIFFICULTY_WEIGHT as int) + weight_if(
        x.date is Some,
        DATE_WEIGHT as int,
    ) + match x.judgements {
        Some(j) => present_judgement_weight(j),
        None => 0,
    }
}

/// The value on which both sides agree, if they do.
pub open spec fn agreed<T>(a: Option<T>, b: Option<T>) -> Option<T> {
    match (a, b) {
        (Some(x), Some(y)) => if x == y {
            a
        } else {
            None
        },
        _ => None,
    }
}

/// The reading of the first side where that of the other is within a
/// hundredth of it.
pub open spec fn agreed_close(a: Option<Decimal>, b: Option<Decimal>) -> Option<Decimal> {
    match (a, b) {
        (Some(x), Some(y)) => if x.close_to(y) {
            a
        } else {
            None
        },
        _ => None,
    }
}

/// What is left of `x` when every attribute that `y` lacks, or has with
/// another value, is taken away.
pub open spec fn agreement(x: ScreenData, y: ScreenData) -> ScreenData {
    ScreenData {
        rate: agreed(x.rate, y.rate),
        pack: agreed(x.pack, y.pack),
        eo_username: agreed(x.eo_username, y.eo_username),
        song: agreed(x.song, y.song),
        artist: agreed(x.artist, y.artist),
        wifescore: agreed_close(x.wifescore, y.wifescore),
        msd: agreed_close(x.msd, y.msd),
        ssr: agreed_close(x.ssr, y.ssr),
        judgements: match (x.judgements, y.judgements) {
            (Some(j), Some(k)) => Some(
                TapJudgementsMaybe {
                    marvelouses: agreed(j.marvelouses, k.marvelouses),
                    perfects: agreed(j.perfects, k.perfects),
                    greats: agreed(j.greats, k.greats),
                    goods: agreed(j.goods, k.goods),
                    bads: agreed(j.bads, k.bads),
                    misses: agreed(j.misses, k.misses),
                },
            ),
            _ => None,
        },
        difficulty: agreed(x.difficulty, y.difficulty),
        date: agreed(x.date, y.date),
    }
}

/// Whether an attribute keeps the value it had, if it had one.
pub open spec fn keeps<T>(before: Option<T>, after: Option<T>) -> bool {
    before is Some ==> after == before
}

/// Whether `after` has every count that `before` has, with the same value.
pub open spec fn judgements_kept(before: TapJudgementsMaybe, after: TapJudgementsMaybe) -> bool {
    &&& keeps(before.marvelouses, after.marvelouses)
    &&& keeps(before.perfects, after.perfects)
    &&& keeps(before.greats, after.greats)
    &&& keeps(before.goods, after.goods)
    &&& keeps(before.bads, after.bads)
    &&& keeps(before.misses, after.misses)
}

impl ScreenData {
    /// Whether this record has every attribute that `base` has, with the same
    /// value. It may have more.
    pub open spec fn extends(self, base: ScreenData) -> bool {
        &&& keeps(base.rate, self.rate)
        &&& keeps(base.pack, self.pack)
        &&& keeps(base.eo_username, self.eo_username)
        &&& keeps(base.song, self.song)
        &&& keeps(base.artist, self.artist)
        &&& keeps(base.wifescore, self.wifescore)
        &&& keeps(base.msd, self.msd)
        &&& keeps(base.ssr, self.ssr)
        &&& keeps(base.difficulty, self.difficulty)
        &&& keeps(base.date, self.date)
        &&& match base.judgements {
            Some(before) => self.judgements matches Some(after) && judgements_kept(before, after),
            None => true,
        }
    }
}

proof fn lemma_credit<T>(a: Option<T>, b: Option<T>, weight: int)
    requires
        weight >= 0,
    ensures
        credit(a, b, weight) == credit(b, a, weight),
        0 <= credit(a, b, weight) <= credit(a, a, weight),
        credit(a, a, weight) == weight_if(a is Some, weight),
{
}

proof fn lemma_credit_close(a: Option<Decimal>, b: Option<Decimal>, weight: int)
    requires
        weight >= 0,
    ensures
        credit_close(a, b, weight) == credit_close(b, a, weight),
        0 <= credit_close(a, b, weight) <= credit_close(a, a, weight),
        credit_close(a, a, weight) == weight_if(a is Some, weight),
{
}

proof fn lemma_credit_grows<T>(a: Option<T>, fuller: Option<T>, b: Option<T>, weight: int)
    requires
        weight >= 0,
        keeps(a, fuller),
    ensures
        credit(a, b, weight) <= credit(fuller, b, weight),
        credit(b, a, weight) <= credit(b, fuller, weight),
{
}

proof fn lemma_credit_close_grows(
    a: Option<Decimal>,
    fuller: Option<Decimal>,
    b: Option<Decimal>,
    weight: int,
)
    requires
        weight >= 0,
        keeps(a, fuller),
    ensures
        credit_close(a, b, weight) <= credit_close(fuller, b, weight),
        credit_close(b, a, weight) <= credit_close(b, fuller, weight),
{
}

proof fn lemma_judgement_score(a: TapJudgementsMaybe, b: TapJudgementsMaybe)
    ensures
        judgement_score(a, b) == judgement_score(b, a),
        0 <= judgement_score(a, b) <= judgement_score(a, a),
        judgement_score(a, a) == present_judgement_weight(a),
{
    lemma_credit(a.marvelouses, b.marvelouses, MARVELOUSES_WEIGHT as int);
    lemma_credit(a.perfects, b.perfects, PERFECTS_WEIGHT as int);
    lemma_credit(a.greats, b.greats, GREATS_WEIGHT as int);
    lemma_credit(a.goods, b.goods, GOODS_WEIGHT as int);
    lemma_credit(a.bads, b.bads, BADS_WEIGHT as int);
    lemma_credit(a.misses, b.misses, MISSES_WEIGHT as int);
}

proof fn lemma_judgement_score_grows(
    a: TapJudgementsMaybe,
    fuller: TapJudgementsMaybe,
    b: TapJudgementsMaybe,
)
    requires
        judgements_kept(a, fuller),
    ensures
        judgement_score(a, b) <= judgement_score(fuller, b),
        judgement_score(b, a) <= judgement_score(b, fuller),
{
    lemma_credit_grows(a.marvelouses, fuller.marvelouses, b.marvelouses, MARVELOUSES_WEIGHT as int);
    lemma_credit_grows(a.perfects, fuller.perfects, b.perfects, PERFECTS_WEIGHT as int);
    lemma_credit_grows(a.greats, fuller.greats, b.greats, GREATS_WEIGHT as int);
    lemma_credit_grows(a.goods, fuller.goods, b.goods, GOODS_WEIGHT as int);
    lemma_credit_grows(a.bads, fuller.bads, b.bads, BADS_WEIGHT as int);
    lemma_credit_grows(a.misses, fuller.misses, b.misses, MISSES_WEIGHT as int);
}

proof fn lemma_judgements_credit(a: Option<TapJudgementsMaybe>, b: Option<TapJudgementsMaybe>)
    ensures
        judgements_credit(a, b) == judgements_credit(b, a),
        0 <= judgements_credit(a, b) <= judgements_credit(a, a),
        judgements_credit(a, a) == match a {
            Some(j) => present_judgement_weight(j),
            None => 0,
        },
{
    match (a, b) {
        (Some(x), Some(y)) => {
            lemma_judgement_score(x, y);
        },
        (Some(x), None) => {
            lemma_judgement_score(x, x);
        },
        _ => {},
    }
}

proof fn lemma_credit_is_agreed_weight<T>(a: Option<T>, b: Option<T>, weight: int)
    ensures
        credit(a, b, weight) == weight_if(agreed(a, b) is Some, weight),
{
}

proof fn lemma_credit_close_is_agreed_weight(a: Option<Decimal>, b: Option<Decimal>, weight: int)
    ensures
        credit_close(a, b, weight) == weight_if(agreed_close(a, b) is Some, weight),
{
}

/// What holds of every attribute, taken together for two records.
proof fn lemma_score_parts(x: ScreenData, y: ScreenData)
    ensures
        equality_score_of(x, y) == equality_score_of(y, x),
        0 <= equality_score_of(x, y) <= equality_score_of(x, x),
        equality_score_of(x, x) == present_weight(x),
{
    lemma_credit(x.rate, y.rate, RATE_WEIGHT as int);
    lemma_credit(x.pack, y.pack, PACK_WEIGHT as int);
    lemma_credit(x.eo_username, y.eo_username, EO_USERNAME_WEIGHT as int);
    lemma_credit(x.song, y.song, SONG_WEIGHT as int);
    lemma_credit(x.artist, y.artist, ARTIST_WEIGHT as int);
    lemma_credit_close(x.wifescore, y.wifescore, WIFESCORE_WEIGHT as int);
    lemma_credit_close(x.msd, y.msd, MSD_WEIGHT as int);
    lemma_credit_close(x.ssr, y.ssr, SSR_WEIGHT as int);
    lemma_credit(x.difficulty, y.difficulty, DIFFICULTY_WEIGHT as int);
    lemma_credit(x.date, y.date, DATE_WEIGHT as int);
    lemma_judgements_credit(x.judgements, y.judgements);
}

/// The equality score does not depend on the order of the two records.
pub proof fn equality_score_is_symmetric(x: EvaluationScreenData, y: EvaluationScreenData)
    ensures
        equality_score_of(x@, y@) == equality_score_of(y@, x@),
{
    lemma_score_parts(x@, y@);
}

/// A record scored against itself gets the weight of every attribute it has.
pub proof fn equality_score_with_itself(x: EvaluationScreenData)
    ensures
        equality_score_of(x@, x@) == present_weight(x@),
{
    lemma_score_parts(x@, x@);
}

/// No comparison that a record takes part in scores higher than the record
/// against itself.
pub proof fn equality_score_is_greatest_with_itself(
    x: EvaluationScreenData,
    y: EvaluationScreenData,
)
    ensures
        equality_score_of(x@, y@) <= equality_score_of(x@, x@),
        equality_score_of(y@, x@) <= equality_score_of(x@, x@),
{
    lemma_score_parts(x@, y@);
}

/// The equality score is never negative.
pub proof fn equality_score_is_not_negative(x: EvaluationScreenData, y: EvaluationScreenData)
    ensures
        0 <= equality_score_of(x@, y@),
{
    lemma_score_parts(x@, y@);
}

/// The equality score is the weight of what the two records agree on:
/// an attribute on which they differ counts like one that is missing.
pub proof fn equality_score_counts_agreement_only(x: EvaluationScreenData, y: EvaluationScreenData)
    ensures
        equality_score_of(x@, y@) == present_weight(agreement(x@, y@)),
{
    let a = x@;
    let b = y@;
    lemma_credit_is_agreed_weight(a.rate, b.rate, RATE_WEIGHT as int);
    lemma_credit_is_agreed_weight(a.pack, b.pack, PACK_WEIGHT as int);
    lemma_credit_is_agreed_weight(a.eo_username, b.eo_username, EO_USERNAME_WEIGHT as int);
    lemma_credit_is_agreed_weight(a.song, b.song, SONG_WEIGHT as int);
    lemma_credit_is_agreed_weight(a.artist, b.artist, ARTIST_WEIGHT as int);
    lemma_credit_close_is_agreed_weight(a.wifescore, b.wifescore, WIFESCORE_WEIGHT as int);
    lemma_credit_close_is_agreed_weight(a.msd, b.msd, MSD_WEIGHT as int);
    lemma_credit_close_is_agreed_weight(a.ssr, b.ssr, SSR_WEIGHT as int);
    lemma_credit_is_agreed_weight(a.difficulty, b.difficulty, DIFFICULTY_WEIGHT as int);
    lemma_credit_is_agreed_weight(a.date, b.date, DATE_WEIGHT as int);
    match (a.judgements, b.judgements) {
        (Some(j), Some(k)) => {
            lemma_credit_is_agreed_weight(j.marvelouses, k.marvelouses, MARVELOUSES_WEIGHT as int);
            lemma_credit_is_agreed_weight(j.perfects, k.perfects, PERFECTS_WEIGHT as int);
            lemma_credit_is_agreed_weight(j.greats, k.greats, GREATS_WEIGHT as int);
            lemma_credit_is_agreed_weight(j.goods, k.goods, GOODS_WEIGHT as int);
            lemma_credit_is_agreed_weight(j.bads, k.bads, BADS_WEIGHT as int);
            lemma_credit_is_agreed_weight(j.misses, k.misses, MISSES_WEIGHT as int);
        },
        _ => {},
    }
}

/// Giving a record more attributes never lowers a score, whether the new
/// values match the other side or not: where `fuller` has all that `x` has,
/// it scores at least what `x` scores against any `y`, on either side.
pub proof fn equality_score_grows_with_attributes(
    x: EvaluationScreenData,
    fuller: EvaluationScreenData,
    y: EvaluationScreenData,
)
    requires
        fuller@.extends(x@),
    ensures
        equality_score_of(x@, y@) <= equality_score_of(fuller@, y@),
        equality_score_of(y@, x@) <= equality_score_of(y@, fuller@),
{
    let a = x@;
    let f = fuller@;
    let b = y@;
    lemma_credit_grows(a.rate, f.rate, b.rate, RATE_WEIGHT as int);
    lemma_credit_grows(a.pack, f.pack, b.pack, PACK_WEIGHT as int);
    lemma_credit_grows(a.eo_username, f.eo_username, b.eo_username, EO_USERNAME_WEIGHT as int);
    lemma_credit_grows(a.song, f.song, b.song, SONG_WEIGHT as int);
    lemma_credit_grows(a.artist, f.artist, b.artist, ARTIST_WEIGHT as int);
    lemma_credit_close_grows(a.wifescore, f.wifescore, b.wifescore, WIFESCORE_WEIGHT as int);
    lemma_credit_close_grows(a.msd, f.msd, b.msd, MSD_WEIGHT as int);
    lemma_credit_close_grows(a.ssr, f.ssr, b.ssr, SSR_WEIGHT as int);
    lemma_credit_grows(a.difficulty, f.difficulty, b.difficulty, DIFFICULTY_WEIGHT as int);
    lemma_credit_grows(a.date, f.date, b.date, DATE_WEIGHT as int);
    assert(judgements_credit(a.judgements, b.judgements) <= judgements_credit(
        f.judgements,
        b.judgements,
    ) && judgements_credit(b.judgements, a.judgements) <= judgements_credit(
        b.judgements,
        f.judgements,
    )) by {
        match (a.judgements, f.judgements, b.judgements) {
            (Some(j), Some(k), Some(other)) => {
                lemma_judgement_score_grows(j, k, other);
            },
            (None, Some(k), Some(other)) => {
                lemma_judgement_score(k, other);
                lemma_judgement_score(other, k);
            },
            _ => {},
        }
    }
}

} // verus!
