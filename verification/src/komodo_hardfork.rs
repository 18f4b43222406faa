//! Notary seasons: which notaries are elected at a height or at a time.
//!
//! The seasons are listed from the earliest on. Each has a last height, a
//! last time and 64 notaries. A height belongs to the first season whose
//! last height is not below it, and likewise a time. The heights serve the
//! main chain, the times serve the chains beside it; the two need not agree.
use vstd::prelude::*;
use vstd::string::StringSliceAdditionalSpecFns;
use crate::block::Height;
use crate::komodo_notaries::{NOTARIES_ELECTED_SOURCE, NUM_KMD_NOTARIES, NUM_KMD_SEASONS};
use crate::komodo_utils::{parse_p2pk, public_key_from_hex, spec_key_of_hex, spec_parse_p2pk, PublicKey};
use crate::serialization::DateTime32;
use crate::transparent::Output;

verus! {

/// The notaries of one season, each with its name, in the order of their
/// seats.
pub type NotarySeasonPubkeys = Vec<(&'static str, PublicKey)>;

/// The seat of a notary in its season. The same key may hold another seat
/// in another season.
pub type NotaryId = u32;

/// Why a question to the notary data has no answer.
#[derive(Clone, Copy, Debug, PartialEq, Eq, Structural)]
pub enum NotaryDataError {
    /// The notary data could not be reached.
    NoNotaryPubkeysInitialised,
    /// The height is above the last height of the last season.
    NoSeasonForHeight,
    /// The time is after the last time of the last season.
    NoSeasonForTimestamp,
}

impl NotaryDataError {
    /// The error in words.
    pub fn message(&self) -> (r: &'static str)
        ensures
            r == match *self {
                NotaryDataError::NoNotaryPubkeysInitialised => "no notary pubkeys initialised",
                NotaryDataError::NoSeasonForHeight => "no season for height",
                NotaryDataError::NoSeasonForTimestamp => "no season for timestamp",
            },
    {
        match self {
            NotaryDataError::NoNotaryPubkeysInitialised => "no notary pubkeys initialised",
            NotaryDataError::NoSeasonForHeight => "no season for height",
            NotaryDataError::NoSeasonForTimestamp => "no season for timestamp",
        }
    }
}

/// Why a table of seasons is refused.
#[derive(Clone, Copy, Debug, PartialEq, Eq, Structural)]
pub enum NotaryTableError {
    /// The seasons are not [`NUM_KMD_SEASONS`] last heights, as many last
    /// times and as many rosters, or the last heights or the last times do
    /// not grow from each season to the next.
    MalformedSeasonTable,
    /// A season has not [`NUM_KMD_NOTARIES`] notaries.
    WrongRosterSize,
    /// The text of a key is no hex text or its bytes encode no key.
    UndecodableKey,
}

/// Whether season `i` is the season of `x`: `x` is not above the bound of
/// season `i` and is above the bound of every season before.
pub open spec fn spec_is_season_of(bounds: Seq<u32>, i: int, x: u32) -> bool {
    &&& 0 <= i < bounds.len()
    &&& x <= bounds[i]
    &&& forall|j: int| 0 <= j < i ==> bounds[j] < x
}

/// The season of `x`, if it has one.
pub open spec fn spec_season_index(bounds: Seq<u32>, x: u32) -> Option<int> {
    if exists|i: int| spec_is_season_of(bounds, i, x) {
        Some(choose|i: int| spec_is_season_of(bounds, i, x))
    } else {
        None
    }
}

/// Whether the bounds grow from each season to the next.
pub open spec fn spec_increasing(bounds: Seq<u32>) -> bool {
    forall|i: int, j: int| 0 <= i < j < bounds.len() ==> bounds[i] < bounds[j]
}

/// Whether seat `i` is the seat of the key with the bytes `key`: the notary
/// at seat `i` has the key and no notary at an earlier seat has it.
pub open spec fn spec_is_seat_of(roster: Seq<(&'static str, PublicKey)>, i: int, key: Seq<u8>)
    -> bool {
    &&& 0 <= i < roster.len()
    &&& roster[i].1@ == key
    &&& forall|j: int| 0 <= j < i ==> roster[j].1@ != key
}

/// The seat in the roster of the key with the bytes `key`, if it has one.
pub open spec fn spec_notary_id(roster: Seq<(&'static str, PublicKey)>, key: Seq<u8>) -> Option<
    int,
> {
    if exists|i: int| spec_is_seat_of(roster, i, key) {
        Some(choose|i: int| spec_is_seat_of(roster, i, key))
    } else {
        None
    }
}

/// Whether no key holds two seats of the roster.
pub open spec fn spec_distinct_keys(roster: Seq<(&'static str, PublicKey)>) -> bool {
    forall|i: int, j: int| 0 <= i < j < roster.len() ==> roster[i].1@ != roster[j].1@
}

/// No value has two seasons.
pub proof fn lemma_season_unique(bounds: Seq<u32>, i: int, j: int, x: u32)
    requires
        spec_is_season_of(bounds, i, x),
        spec_is_season_of(bounds, j, x),
    ensures
        i == j,
        spec_season_index(bounds, x) == Some(i),
{
    if i < j {
        assert(bounds[i] < x);
    }
    if j < i {
        assert(bounds[j] < x);
    }
    let k = choose|k: int| spec_is_season_of(bounds, k, x);
    if i < k {
        assert(bounds[i] < x);
    }
    if k < i {
        assert(bounds[k] < x);
    }
}

/// The seasons part the values up to the last bound: where the bounds grow,
/// the first season holds everything up to its bound, each later season `i`
/// holds what is above the bound of season `i - 1` and not above its own,
/// every value up to the last bound has exactly one season, and no value
/// above it has one.
pub proof fn lemma_seasons_partition(bounds: Seq<u32>, x: u32)
    requires
        spec_increasing(bounds),
        bounds.len() > 0,
    ensures
        forall|i: int|
            spec_is_season_of(bounds, i, x) <==> (0 <= i < bounds.len() && x <= bounds[i] && (i == 0
                || bounds[i - 1] < x)),
        x <= bounds.last() <==> spec_season_index(bounds, x) is Some,
        x <= bounds.last() ==> spec_is_season_of(bounds, spec_season_index(bounds, x)->Some_0, x),
        forall|i: int, j: int|
            spec_is_season_of(bounds, i, x) && spec_is_season_of(bounds, j, x) ==> i == j,
{
    assert forall|i: int|
        (0 <= i < bounds.len() && x <= bounds[i] && (i == 0 || bounds[i - 1] < x)) implies spec_is_season_of(
        bounds,
        i,
        x,
    ) by {
        assert forall|j: int| 0 <= j < i implies bounds[j] < x by {
            if j < i - 1 {
                assert(bounds[j] < bounds[i - 1]);
            }
        }
    }
    assert forall|i: int, j: int|
        spec_is_season_of(bounds, i, x) && spec_is_season_of(bounds, j, x) implies i == j by {
        lemma_season_unique(bounds, i, j, x);
    }
    if x <= bounds.last() {
        lemma_first_covering(bounds, x, bounds.len() - 1);
    } else {
        assert forall|i: int| !spec_is_season_of(bounds, i, x) by {
            if 0 <= i < bounds.len() - 1 {
                assert(bounds[i] < bounds[bounds.len() - 1]);
            }
        }
    }
}

/// A value that is not above some bound has a season.
pub proof fn lemma_first_covering(bounds: Seq<u32>, x: u32, n: int)
    requires
        0 <= n < bounds.len(),
        x <= bounds[n],
    ensures
        exists|i: int| spec_is_season_of(bounds, i, x),
    decreases n,
{
    if forall|j: int| 0 <= j < n ==> bounds[j] < x {
        assert(spec_is_season_of(bounds, n, x));
    } else {
        let j = choose|j: int| 0 <= j < n && !(bounds[j] < x);
        lemma_first_covering(bounds, x, j);
    }
}

/// The season changes exactly after a bound: where the bounds grow, `x` and
/// `x + 1` have different seasons, or one has none, exactly where `x` is the
/// bound of a season.
pub proof fn lemma_season_changes_at_bounds(bounds: Seq<u32>, x: u32)
    requires
        spec_increasing(bounds),
        bounds.len() > 0,
        x < u32::MAX,
    ensures
        spec_season_index(bounds, x) != spec_season_index(bounds, (x + 1) as u32) <==> exists|
            i: int,
        |
            0 <= i < bounds.len() && #[trigger] bounds[i] == x,
{
    let y = (x + 1) as u32;
    lemma_seasons_partition(bounds, x);
    lemma_seasons_partition(bounds, y);
    if exists|i: int| 0 <= i < bounds.len() && #[trigger] bounds[i] == x {
        let i = choose|i: int| 0 <= i < bounds.len() && #[trigger] bounds[i] == x;
        assert(spec_is_season_of(bounds, i, x));
        lemma_season_unique(bounds, i, i, x);
        if spec_season_index(bounds, y) == Some(i) {
            assert(spec_is_season_of(bounds, i, y));
        }
    } else {
        if spec_season_index(bounds, x) is Some {
            let i = spec_season_index(bounds, x)->Some_0;
            assert(spec_is_season_of(bounds, i, x));
            assert(bounds[i] != x);
            assert(spec_is_season_of(bounds, i, y));
            lemma_season_unique(bounds, i, i, y);
        } else {
            assert(x > bounds.last());
        }
    }
}

/// No key has two seats.
pub proof fn lemma_seat_unique(roster: Seq<(&'static str, PublicKey)>, i: int, key: Seq<u8>)
    requires
        spec_is_seat_of(roster, i, key),
    ensures
        spec_notary_id(roster, key) == Some(i),
{
    let k = choose|k: int| spec_is_seat_of(roster, k, key);
    if i < k {
        assert(roster[i].1@ != key);
    }
    if k < i {
        assert(roster[k].1@ != key);
    }
}

/// Where no key holds two seats of a roster, the seat of a key is `i`
/// exactly where the notary at seat `i` has the key, and a key has no seat
/// exactly where no notary has it.
pub proof fn lemma_notary_id_is_the_seat(roster: Seq<(&'static str, PublicKey)>, key: Seq<u8>)
    requires
        spec_distinct_keys(roster),
    ensures
        forall|i: int|
            spec_notary_id(roster, key) == Some(i) <==> (0 <= i < roster.len()
                && (#[trigger] roster[i]).1@ == key),
        spec_notary_id(roster, key) is None <==> forall|i: int|
            0 <= i < roster.len() ==> (#[trigger] roster[i]).1@ != key,
{
    assert forall|i: int|
        0 <= i < roster.len() && (#[trigger] roster[i]).1@ == key implies spec_notary_id(
        roster,
        key,
    ) == Some(i) by {
        assert(spec_is_seat_of(roster, i, key));
        lemma_seat_unique(roster, i, key);
    }
    if spec_notary_id(roster, key) is Some {
        let k = spec_notary_id(roster, key)->Some_0;
        assert(spec_is_seat_of(roster, k, key));
    }
}

/// The last height of each season.
pub const KMD_SEASON_HEIGHTS: [u32; 7] = [814000, 1444000, 1670000, 1922000, 2437300, 2963330, 7113400];

/// The last time of each season, in seconds since the epoch.
pub const KMD_SEASON_TIMESTAMPS: [u32; 7] = [
    1525132800,
    1563148800,
    1576840000,
    1592146800,
    1623682800,
    1656077853,
    1751328000,
];

/// The season whose last height is the height of the December 2019 hard fork.
pub const DECEMBER_HARDFORK_SEASON: usize = 2;

/// The season whose last height is the height of the season 6 hard fork.
pub const S6_HARDFORK_SEASON: usize = 5;

/// Whether the text of every key of a season decodes and the season has
/// [`NUM_KMD_NOTARIES`] notaries.
pub open spec fn spec_season_decodes(source: Seq<(&'static str, &'static str)>) -> bool {
    &&& source.len() == NUM_KMD_NOTARIES
    &&& forall|j: int|
        0 <= j < source.len() ==> spec_key_of_hex((#[trigger] source[j]).1.spec_bytes()) is Some
}

/// Whether `roster` is what `source` decodes to: the same names, and for
/// each seat the key that the hex text stands for.
pub open spec fn spec_roster_of(
    source: Seq<(&'static str, &'static str)>,
    roster: Seq<(&'static str, PublicKey)>,
) -> bool {
    &&& roster.len() == source.len()
    &&& forall|j: int|
        0 <= j < source.len() ==> (#[trigger] roster[j]).0 == source[j].0 && spec_key_of_hex(
            source[j].1.spec_bytes(),
        ) == Some(roster[j].1@)
}

/// Whether the parts make a table of seasons: [`NUM_KMD_SEASONS`] of each,
/// growing bounds, and [`NUM_KMD_NOTARIES`] notaries in each season.
pub open spec fn spec_table_error(
    timestamps: Seq<u32>,
    heights: Seq<u32>,
    rosters: Seq<Seq<(&'static str, PublicKey)>>,
) -> Option<NotaryTableError> {
    if timestamps.len() != NUM_KMD_SEASONS || heights.len() != NUM_KMD_SEASONS || rosters.len()
        != NUM_KMD_SEASONS || !spec_increasing(timestamps) || !spec_increasing(heights) {
        Some(NotaryTableError::MalformedSeasonTable)
    } else if exists|s: int| 0 <= s < rosters.len() && (#[trigger] rosters[s]).len() != NUM_KMD_NOTARIES {
        Some(NotaryTableError::WrongRosterSize)
    } else {
        None
    }
}

/// The raw numbers of a run of heights.
pub open spec fn spec_height_numbers(heights: Seq<Height>) -> Seq<u32> {
    Seq::new(heights.len(), |i: int| heights[i].0)
}

/// The raw numbers of a run of times.
pub open spec fn spec_time_numbers(times: Seq<DateTime32>) -> Seq<u32> {
    Seq::new(times.len(), |i: int| times[i].timestamp)
}

/// The views of a run of rosters.
pub open spec fn spec_roster_views(rosters: Seq<NotarySeasonPubkeys>) -> Seq<
    Seq<(&'static str, PublicKey)>,
> {
    Seq::new(rosters.len(), |i: int| rosters[i]@)
}

/// The notary seasons: for each, its last time, its last height and its
/// notaries.
///
/// A value of this type is always well formed, see [`NNData::wf`]: it is
/// made once and never changed.
#[derive(Debug)]
pub struct NNData {
    season_timestamps: Vec<DateTime32>,
    season_heights: Vec<Height>,
    notaries_elected: Vec<NotarySeasonPubkeys>,
}

impl NNData {
    /// The last time of each season.
    pub closed spec fn spec_season_timestamps(&self) -> Seq<u32> {
        spec_time_numbers(self.season_timestamps@)
    }

    /// The last height of each season.
    pub closed spec fn spec_season_heights(&self) -> Seq<u32> {
        spec_height_numbers(self.season_heights@)
    }

    /// The notaries of each season.
    pub closed spec fn spec_notaries_elected(&self) -> Seq<Seq<(&'static str, PublicKey)>> {
        spec_roster_views(self.notaries_elected@)
    }

    /// Whether the seasons are well formed: there are [`NUM_KMD_SEASONS`],
    /// their last heights grow, their last times grow, and each has
    /// [`NUM_KMD_NOTARIES`] notaries.
    pub open spec fn wf(&self) -> bool {
        spec_table_error(
            self.spec_season_timestamps(),
            self.spec_season_heights(),
            self.spec_notaries_elected(),
        ) is None
    }

    #[verifier::type_invariant]
    spec fn inv(&self) -> bool {
        self.wf()
    }

    /// The seat of the key with the bytes `key` among the notaries of the
    /// season of `height`.
    pub open spec fn spec_notary_id_for_height(&self, height: Height, key: Seq<u8>) -> Result<
        Option<int>,
        NotaryDataError,
    > {
        match spec_season_index(self.spec_season_heights(), height.0) {
            None => Err(NotaryDataError::NoSeasonForHeight),
            Some(season) => Ok(spec_notary_id(self.spec_notaries_elected()[season], key)),
        }
    }

    /// The seat of the key with the bytes `key` among the notaries of the
    /// season of `timestamp`.
    pub open spec fn spec_notary_id_for_timestamp(&self, timestamp: DateTime32, key: Seq<u8>)
        -> Result<Option<int>, NotaryDataError> {
        match spec_season_index(self.spec_season_timestamps(), timestamp.timestamp) {
            None => Err(NotaryDataError::NoSeasonForTimestamp),
            Some(season) => Ok(spec_notary_id(self.spec_notaries_elected()[season], key)),
        }
    }

    /// Makes the notary data from its parts, if they make a table of
    /// seasons.
    pub fn from_parts(
        season_timestamps: Vec<DateTime32>,
        season_heights: Vec<Height>,
        notaries_elected: Vec<NotarySeasonPubkeys>,
    ) -> (r: Result<NNData, NotaryTableError>)
        ensures
            match r {
                Ok(data) => {
                    &&& spec_table_error(
                        spec_time_numbers(season_timestamps@),
                        spec_height_numbers(season_heights@),
                        spec_roster_views(notaries_elected@),
                    ) is None
                    &&& data.wf()
                    &&& data.spec_season_timestamps() == spec_time_numbers(season_timestamps@)
                    &&& data.spec_season_heights() == spec_height_numbers(season_heights@)
                    &&& data.spec_notaries_elected() == spec_roster_views(notaries_elected@)
                },
                Err(e) => spec_table_error(
                    spec_time_numbers(season_timestamps@),
                    spec_height_numbers(season_heights@),
                    spec_roster_views(notaries_elected@),
                ) == Some(e),
            },
    {
        let ghost timestamps = spec_time_numbers(season_timestamps@);
        let ghost heights = spec_height_numbers(season_heights@);
        let ghost rosters = spec_roster_views(notaries_elected@);
        if season_timestamps.len() != NUM_KMD_SEASONS || season_heights.len() != NUM_KMD_SEASONS
            || notaries_elected.len() != NUM_KMD_SEASONS {
            return Err(NotaryTableError::MalformedSeasonTable);
        }
        let mut i: usize = 1;
        while i < NUM_KMD_SEASONS
            invariant
                1 <= i <= NUM_KMD_SEASONS,
                season_timestamps.len() == NUM_KMD_SEASONS,
                season_heights.len() == NUM_KMD_SEASONS,
                timestamps == spec_time_numbers(season_timestamps@),
                heights == spec_height_numbers(season_heights@),
                forall|a: int| 0 < a < i ==> timestamps[a - 1] < #[trigger] timestamps[a],
                forall|a: int| 0 < a < i ==> heights[a - 1] < #[trigger] heights[a],
            decreases NUM_KMD_SEASONS - i,
        {
            if season_timestamps[i - 1].timestamp >= season_timestamps[i].timestamp {
                assert(!(timestamps[i - 1] < timestamps[i as int]));
                return Err(NotaryTableError::MalformedSeasonTable);
            }
            if season_heights[i - 1].0 >= season_heights[i].0 {
                assert(!(heights[i - 1] < heights[i as int]));
                return Err(NotaryTableError::MalformedSeasonTable);
            }
            i = i + 1;
        }
        proof {
            lemma_steps_increase(timestamps);
            lemma_steps_increase(heights);
        }
        let mut s: usize = 0;
        while s < NUM_KMD_SEASONS
            invariant
                s <= NUM_KMD_SEASONS,
                notaries_elected.len() == NUM_KMD_SEASONS,
                timestamps == spec_time_numbers(season_timestamps@),
                heights == spec_height_numbers(season_heights@),
                timestamps.len() == NUM_KMD_SEASONS,
                heights.len() == NUM_KMD_SEASONS,
                spec_increasing(timestamps),
                spec_increasing(heights),
                rosters == spec_roster_views(notaries_elected@),
                forall|a: int| 0 <= a < s ==> (#[trigger] rosters[a]).len() == NUM_KMD_NOTARIES,
            decreases NUM_KMD_SEASONS - s,
        {
            if notaries_elected[s].len() != NUM_KMD_NOTARIES {
                assert(rosters[s as int].len() != NUM_KMD_NOTARIES);
                return Err(NotaryTableError::WrongRosterSize);
            }
            s = s + 1;
        }
        Ok(NNData { season_timestamps, season_heights, notaries_elected })
    }

    /// Reads the notaries of one season from their names and the hex text of
    /// their keys.
    ///
    /// Fails on a season that has not [`NUM_KMD_NOTARIES`] notaries, and
    /// else on a key whose text does not decode.
    pub fn decode_season(source: &[(&'static str, &'static str)]) -> (r: Result<
        NotarySeasonPubkeys,
        NotaryTableError,
    >)
        ensures
            match r {
                Ok(roster) => spec_season_decodes(source@) && spec_roster_of(source@, roster@),
                Err(e) => !spec_season_decodes(source@) && e == (if source@.len()
                    != NUM_KMD_NOTARIES {
                    NotaryTableError::WrongRosterSize
                } else {
                    NotaryTableError::UndecodableKey
                }),
            },
    {
        if source.len() != NUM_KMD_NOTARIES {
            return Err(NotaryTableError::WrongRosterSize);
        }
        let mut roster: NotarySeasonPubkeys = Vec::new();
        let mut j: usize = 0;
        while j < source.len()
            invariant
                j <= source.len(),
                source.len() == NUM_KMD_NOTARIES,
                roster.len() == j,
                forall|a: int|
                    0 <= a < j ==> (#[trigger] roster@[a]).0 == source@[a].0 && spec_key_of_hex(
                        source@[a].1.spec_bytes(),
                    ) == Some(roster@[a].1@),
            decreases source.len() - j,
        {
            let entry = source[j];
            match public_key_from_hex(entry.1) {
                None => {
                    assert(spec_key_of_hex(source@[j as int].1.spec_bytes()) is None);
                    return Err(NotaryTableError::UndecodableKey);
                },
                Some(key) => {
                    roster.push((entry.0, key));
                },
            }
            j = j + 1;
        }
        assert forall|a: int| 0 <= a < source@.len() implies spec_key_of_hex(
            (#[trigger] source@[a]).1.spec_bytes(),
        ) is Some by {
            assert(roster@[a].0 == source@[a].0);
        }
        Ok(roster)
    }

    /// Reads the notaries of every season from [`NOTARIES_ELECTED_SOURCE`].
    ///
    /// Fails where the text of a key does not decode.
    pub fn init_nn_pubkeys() -> (r: Result<Vec<NotarySeasonPubkeys>, NotaryTableError>)
        ensures
            match r {
                Ok(rosters) => {
                    &&& rosters.len() == NUM_KMD_SEASONS
                    &&& forall|s: int|
                        0 <= s < NUM_KMD_SEASONS ==> spec_roster_of(
                            NOTARIES_ELECTED_SOURCE[s]@,
                            #[trigger] rosters@[s]@,
                        ) && rosters@[s].len() == NUM_KMD_NOTARIES
                },
                Err(e) => e == NotaryTableError::UndecodableKey && exists|s: int|
                    0 <= s < NUM_KMD_SEASONS && !spec_season_decodes(
                        #[trigger] NOTARIES_ELECTED_SOURCE[s]@,
                    ),
            },
    {
        let mut rosters: Vec<NotarySeasonPubkeys> = Vec::new();
        let mut s: usize = 0;
        while s < NUM_KMD_SEASONS
            invariant
                s <= NUM_KMD_SEASONS,
                rosters.len() == s,
                forall|a: int|
                    0 <= a < s ==> spec_roster_of(
                        NOTARIES_ELECTED_SOURCE[a]@,
                        #[trigger] rosters@[a]@,
                    ) && rosters@[a].len() == NUM_KMD_NOTARIES,
            decreases NUM_KMD_SEASONS - s,
        {
            let season = &NOTARIES_ELECTED_SOURCE[s];
            match Self::decode_season(season.as_slice()) {
                Err(e) => {
                    assert(!spec_season_decodes(NOTARIES_ELECTED_SOURCE[s as int]@));
                    return Err(e);
                },
                Ok(roster) => {
                    rosters.push(roster);
                },
            }
            s = s + 1;
        }
        Ok(rosters)
    }

    /// Makes the notary data of the chain: the seasons of
    /// [`KMD_SEASON_TIMESTAMPS`] and [`KMD_SEASON_HEIGHTS`] with the notaries
    /// of [`NOTARIES_ELECTED_SOURCE`].
    ///
    /// Fails where the text of a key does not decode.
    pub fn new() -> (r: Result<NNData, NotaryTableError>)
        ensures
            match r {
                Ok(data) => {
                    &&& data.wf()
                    &&& data.spec_season_timestamps() == KMD_SEASON_TIMESTAMPS@
                    &&& data.spec_season_heights() == KMD_SEASON_HEIGHTS@
                    &&& forall|s: int|
                        0 <= s < NUM_KMD_SEASONS ==> spec_roster_of(
                            NOTARIES_ELECTED_SOURCE[s]@,
                            #[trigger] data.spec_notaries_elected()[s],
                        )
                },
                Err(e) => e == NotaryTableError::UndecodableKey && exists|s: int|
                    0 <= s < NUM_KMD_SEASONS && !spec_season_decodes(
                        #[trigger] NOTARIES_ELECTED_SOURCE[s]@,
                    ),
            },
    {
        let mut season_timestamps: Vec<DateTime32> = Vec::new();
        let mut season_heights: Vec<Height> = Vec::new();
        let mut s: usize = 0;
        while s < NUM_KMD_SEASONS
            invariant
                s <= NUM_KMD_SEASONS,
                season_timestamps.len() == s,
                season_heights.len() == s,
                forall|a: int|
                    0 <= a < s ==> (#[trigger] season_timestamps@[a]).timestamp
                        == KMD_SEASON_TIMESTAMPS[a],
                forall|a: int| 0 <= a < s ==> (#[trigger] season_heights@[a]).0 == KMD_SEASON_HEIGHTS[a],
            decreases NUM_KMD_SEASONS - s,
        {
            season_timestamps.push(DateTime32::from(KMD_SEASON_TIMESTAMPS[s]));
            season_heights.push(Height(KMD_SEASON_HEIGHTS[s]));
            s = s + 1;
        }
        let notaries_elected = match Self::init_nn_pubkeys() {
            Err(e) => {
                return Err(e);
            },
            Ok(rosters) => rosters,
        };
        proof {
            assert(spec_time_numbers(season_timestamps@) =~= KMD_SEASON_TIMESTAMPS@);
            assert(spec_height_numbers(season_heights@) =~= KMD_SEASON_HEIGHTS@);
            assert(spec_increasing(KMD_SEASON_TIMESTAMPS@));
            assert(spec_increasing(KMD_SEASON_HEIGHTS@));
            assert forall|a: int| 0 <= a < NUM_KMD_SEASONS implies (#[trigger] spec_roster_views(
                notaries_elected@,
            )[a]).len() == NUM_KMD_NOTARIES by {
                assert(notaries_elected@[a].len() == NUM_KMD_NOTARIES);
            }
        }
        // The bounds grow and every season has its notaries, so the parts are
        // never refused.
        let made = Self::from_parts(season_timestamps, season_heights, notaries_elected);
        assert(made is Ok);
        made
    }

    /// The notaries of the season of `height`: the first season whose last
    /// height is not below it.
    ///
    /// Fails above the last height of the last season.
    pub fn get_kmd_season(&self, height: &Height) -> (r: Result<
        &NotarySeasonPubkeys,
        NotaryDataError,
    >)
        ensures
            match r {
                Ok(roster) => {
                    &&& spec_season_index(self.spec_season_heights(), height.0) is Some
                    &&& roster@ == self.spec_notaries_elected()[spec_season_index(
                        self.spec_season_heights(),
                        height.0,
                    )->Some_0]
                    &&& roster@.len() == NUM_KMD_NOTARIES
                },
                Err(e) => e == NotaryDataError::NoSeasonForHeight && spec_season_index(
                    self.spec_season_heights(),
                    height.0,
                ) is None,
            },
            r is Ok <==> height.0 <= self.spec_season_heights().last(),
    {
        proof {
            use_type_invariant(self);
            lemma_seasons_partition(self.spec_season_heights(), height.0);
        }
        let ghost bounds = self.spec_season_heights();
        if height.0 <= self.season_heights[0].0 {
            proof {
                assert(spec_is_season_of(bounds, 0, height.0));
                lemma_season_unique(bounds, 0, 0, height.0);
                assert(self.spec_notaries_elected()[0].len() == NUM_KMD_NOTARIES);
                assert(self.spec_notaries_elected()[0] == self.notaries_elected@[0]@);
            }
            return Ok(&self.notaries_elected[0]);
        }
        let mut i: usize = 1;
        while i < self.season_heights.len()
            invariant
                1 <= i <= self.season_heights.len(),
                self.wf(),
                bounds == self.spec_season_heights(),
                height.0 <= bounds.last() <==> spec_season_index(bounds, height.0) is Some,
                forall|j: int| 0 <= j < i ==> bounds[j] < height.0,
            decreases self.season_heights.len() - i,
        {
            if height.0 <= self.season_heights[i].0 && height.0 > self.season_heights[i - 1].0 {
                proof {
                    assert(spec_is_season_of(bounds, i as int, height.0));
                    lemma_season_unique(bounds, i as int, i as int, height.0);
                    assert(self.spec_notaries_elected()[i as int].len() == NUM_KMD_NOTARIES);
                    assert(self.spec_notaries_elected()[i as int] == self.notaries_elected@[i as int]@);
                }
                return Ok(&self.notaries_elected[i]);
            }
            assert(bounds[i - 1] < height.0);
            i = i + 1;
        }
        Err(NotaryDataError::NoSeasonForHeight)
    }

    /// The notaries of the season of `timestamp`: the first season whose
    /// last time is not before it.
    ///
    /// Fails after the last time of the last season.
    pub fn get_ac_season(&self, timestamp: &DateTime32) -> (r: Result<
        &NotarySeasonPubkeys,
        NotaryDataError,
    >)
        ensures
            match r {
                Ok(roster) => {
                    &&& spec_season_index(self.spec_season_timestamps(), timestamp.timestamp)
                        is Some
                    &&& roster@ == self.spec_notaries_elected()[spec_season_index(
                        self.spec_season_timestamps(),
                        timestamp.timestamp,
                    )->Some_0]
                    &&& roster@.len() == NUM_KMD_NOTARIES
                },
                Err(e) => e == NotaryDataError::NoSeasonForTimestamp && spec_season_index(
                    self.spec_season_timestamps(),
                    timestamp.timestamp,
                ) is None,
            },
            r is Ok <==> timestamp.timestamp <= self.spec_season_timestamps().last(),
    {
        proof {
            use_type_invariant(self);
            lemma_seasons_partition(self.spec_season_timestamps(), timestamp.timestamp);
        }
        let ghost bounds = self.spec_season_timestamps();
        if timestamp.timestamp <= self.season_timestamps[0].timestamp {
            proof {
                assert(spec_is_season_of(bounds, 0, timestamp.timestamp));
                lemma_season_unique(bounds, 0, 0, timestamp.timestamp);
                assert(self.spec_notaries_elected()[0].len() == NUM_KMD_NOTARIES);
                assert(self.spec_notaries_elected()[0] == self.notaries_elected@[0]@);
            }
            return Ok(&self.notaries_elected[0]);
        }
        let mut i: usize = 1;
        while i < self.season_timestamps.len()
            invariant
                1 <= i <= self.season_timestamps.len(),
                self.wf(),
                bounds == self.spec_season_timestamps(),
                timestamp.timestamp <= bounds.last() <==> spec_season_index(
                    bounds,
                    timestamp.timestamp,
                ) is Some,
                forall|j: int| 0 <= j < i ==> bounds[j] < timestamp.timestamp,
            decreases self.season_timestamps.len() - i,
        {
            if timestamp.timestamp <= self.season_timestamps[i].timestamp && timestamp.timestamp
                > self.season_timestamps[i - 1].timestamp {
                proof {
                    assert(spec_is_season_of(bounds, i as int, timestamp.timestamp));
                    lemma_season_unique(bounds, i as int, i as int, timestamp.timestamp);
                    assert(self.spec_notaries_elected()[i as int].len() == NUM_KMD_NOTARIES);
                    assert(self.spec_notaries_elected()[i as int] == self.notaries_elected@[i as int]@);
                }
                return Ok(&self.notaries_elected[i]);
            }
            assert(bounds[i - 1] < timestamp.timestamp);
            i = i + 1;
        }
        Err(NotaryDataError::NoSeasonForTimestamp)
    }

    /// The seat of `pk` among the notaries of the season of `height`, or
    /// none where the key has no seat in that season.
    ///
    /// Fails above the last height of the last season.
    pub fn komodo_get_notary_id_for_height(&self, height: &Height, pk: &PublicKey) -> (r: Result<
        Option<NotaryId>,
        NotaryDataError,
    >)
        ensures
            match r {
                Ok(Some(id)) => self.spec_notary_id_for_height(*height, pk@) == Ok::<
                    Option<int>,
                    NotaryDataError,
                >(Some(id as int)),
                Ok(None) => self.spec_notary_id_for_height(*height, pk@) == Ok::<
                    Option<int>,
                    NotaryDataError,
                >(None),
                Err(e) => self.spec_notary_id_for_height(*height, pk@) == Err::<
                    Option<int>,
                    NotaryDataError,
                >(e),
            },
    {
        match self.get_kmd_season(height) {
            Err(e) => Err(e),
            Ok(season) => Ok(notary_position(season, pk)),
        }
    }

    /// The seat of `pk` among the notaries of the season of `timestamp`, or
    /// none where the key has no seat in that season.
    ///
    /// Fails after the last time of the last season.
    pub fn komodo_get_notary_id_for_timestamp(&self, timestamp: &DateTime32, pk: &PublicKey) -> (r:
        Result<Option<NotaryId>, NotaryDataError>)
        ensures
            match r {
                Ok(Some(id)) => self.spec_notary_id_for_timestamp(*timestamp, pk@) == Ok::<
                    Option<int>,
                    NotaryDataError,
                >(Some(id as int)),
                Ok(None) => self.spec_notary_id_for_timestamp(*timestamp, pk@) == Ok::<
                    Option<int>,
                    NotaryDataError,
                >(None),
                Err(e) => self.spec_notary_id_for_timestamp(*timestamp, pk@) == Err::<
                    Option<int>,
                    NotaryDataError,
                >(e),
            },
    {
        match self.get_ac_season(timestamp) {
            Err(e) => Err(e),
            Ok(season) => Ok(notary_position(season, pk)),
        }
    }

    /// The last height of the season that ends with the season 6 hard fork.
    pub fn s6_hardfork_height(&self) -> (r: Height)
        ensures
            r.0 == self.spec_season_heights()[S6_HARDFORK_SEASON as int],
    {
        proof {
            use_type_invariant(self);
        }
        self.season_heights[S6_HARDFORK_SEASON]
    }

    /// The last height of the season that ends with the December 2019 hard
    /// fork.
    pub fn december_hardfork_height(&self) -> (r: Height)
        ensures
            r.0 == self.spec_season_heights()[DECEMBER_HARDFORK_SEASON as int],
    {
        proof {
            use_type_invariant(self);
        }
        self.season_heights[DECEMBER_HARDFORK_SEASON]
    }
}

/// The first seat of the season that `pk` holds, if it holds one. The seats
/// must be no more than a [`NotaryId`] can count.
pub fn notary_position(season: &NotarySeasonPubkeys, pk: &PublicKey) -> (r: Option<NotaryId>)
    requires
        season@.len() <= u32::MAX,
    ensures
        match r {
            Some(id) => spec_notary_id(season@, pk@) == Some(id as int),
            None => spec_notary_id(season@, pk@) is None,
        },
{
    let mut i: usize = 0;
    while i < season.len()
        invariant
            i <= season.len(),
            season@.len() <= u32::MAX,
            forall|j: int| 0 <= j < i ==> season@[j].1@ != pk@,
        decreases season.len() - i,
    {
        if season[i].1.same(pk) {
            proof {
                assert(spec_is_seat_of(season@, i as int, pk@));
                lemma_seat_unique(season@, i as int, pk@);
            }
            return Some(i as NotaryId);
        }
        i = i + 1;
    }
    None
}

/// The seat of `pk` in the season of `height`.
///
/// `nndata` is the notary data, or none where it could not be reached: the
/// call then fails with [`NotaryDataError::NoNotaryPubkeysInitialised`].
pub fn komodo_get_notary_id_for_height(
    nndata: Option<&NNData>,
    height: &Height,
    pk: &PublicKey,
) -> (r: Result<Option<NotaryId>, NotaryDataError>)
    ensures
        match nndata {
            None => r == Err::<Option<NotaryId>, NotaryDataError>(
                NotaryDataError::NoNotaryPubkeysInitialised,
            ),
            Some(data) => match r {
                Ok(Some(id)) => data.spec_notary_id_for_height(*height, pk@) == Ok::<
                    Option<int>,
                    NotaryDataError,
                >(Some(id as int)),
                Ok(None) => data.spec_notary_id_for_height(*height, pk@) == Ok::<
                    Option<int>,
                    NotaryDataError,
                >(None),
                Err(e) => data.spec_notary_id_for_height(*height, pk@) == Err::<
                    Option<int>,
                    NotaryDataError,
                >(e),
            },
        },
{
    match nndata {
        Some(data) => data.komodo_get_notary_id_for_height(height, pk),
        None => Err(NotaryDataError::NoNotaryPubkeysInitialised),
    }
}

/// The seat of `pk` in the season of `timestamp`.
///
/// `nndata` is the notary data, or none where it could not be reached: the
/// call then fails with [`NotaryDataError::NoNotaryPubkeysInitialised`].
pub fn komodo_get_notary_id_for_timestamp(
    nndata: Option<&NNData>,
    timestamp: &DateTime32,
    pk: &PublicKey,
) -> (r: Result<Option<NotaryId>, NotaryDataError>)
    ensures
        match nndata {
            None => r == Err::<Option<NotaryId>, NotaryDataError>(
                NotaryDataError::NoNotaryPubkeysInitialised,
            ),
            Some(data) => match r {
                Ok(Some(id)) => data.spec_notary_id_for_timestamp(*timestamp, pk@) == Ok::<
                    Option<int>,
                    NotaryDataError,
                >(Some(id as int)),
                Ok(None) => data.spec_notary_id_for_timestamp(*timestamp, pk@) == Ok::<
                    Option<int>,
                    NotaryDataError,
                >(None),
                Err(e) => data.spec_notary_id_for_timestamp(*timestamp, pk@) == Err::<
                    Option<int>,
                    NotaryDataError,
                >(e),
            },
        },
{
    match nndata {
        Some(data) => data.komodo_get_notary_id_for_timestamp(timestamp, pk),
        None => Err(NotaryDataError::NoNotaryPubkeysInitialised),
    }
}

/// Whether the key with the bytes `key` holds a seat in the season of
/// `height`.
pub open spec fn spec_is_notary_at(nndata: Option<&NNData>, height: Height, key: Seq<u8>) -> bool {
    match nndata {
        None => false,
        Some(data) => data.spec_notary_id_for_height(height, key) matches Ok(Some(_)),
    }
}

/// Whether there is notary data and `height` has a season in it.
pub open spec fn spec_height_has_season(nndata: Option<&NNData>, height: Height) -> bool {
    match nndata {
        None => false,
        Some(data) => spec_season_index(data.spec_season_heights(), height.0) is Some,
    }
}

/// Whether `pk` is the key of a notary of the season of `height`.
///
/// Without notary data the answer is no. With it, the height must have a
/// season.
pub fn komodo_is_notary_pubkey(nndata: Option<&NNData>, height: &Height, pk: &PublicKey) -> (r:
    bool)
    requires
        nndata is Some ==> spec_height_has_season(nndata, *height),
    ensures
        r == spec_is_notary_at(nndata, *height, pk@),
{
    match nndata {
        None => false,
        Some(data) => match data.komodo_get_notary_id_for_height(height, pk) {
            Ok(id) => id.is_some(),
            Err(_) => false,
        },
    }
}

/// Whether `output` pays to the key of a notary of the season of `height`.
///
/// The answer is no without notary data, for a script that is no canonical
/// pay-to-public-key script, and for a key that no notary of the season has.
/// Where the script pays to a key, the height must have a season.
pub fn komodo_is_notary_node_output(nndata: Option<&NNData>, height: &Height, output: &Output)
    -> (r: bool)
    requires
        nndata is Some && spec_parse_p2pk(output@.lock_script) is Some ==> spec_height_has_season(
            nndata,
            *height,
        ),
    ensures
        r == match spec_parse_p2pk(output@.lock_script) {
            Some(key) => spec_is_notary_at(nndata, *height, key),
            None => false,
        },
{
    match nndata {
        None => false,
        Some(data) => match parse_p2pk(&output.lock_script) {
            None => false,
            Some(pk) => match data.komodo_get_notary_id_for_height(height, &pk) {
                Ok(id) => id.is_some(),
                Err(_) => false,
            },
        },
    }
}

/// Whether `output` pays to the key of a notary of the season of `height`,
/// for any height: where [`komodo_is_notary_node_output`] cannot be asked
/// because the script pays to a key and the height has no season, the call
/// fails with [`NotaryDataError::NoSeasonForHeight`].
pub fn komodo_check_notary_node_output(
    nndata: Option<&NNData>,
    height: &Height,
    output: &Output,
) -> (r: Result<bool, NotaryDataError>)
    ensures
        match r {
            Ok(is_notary) => {
                &&& is_notary == match spec_parse_p2pk(output@.lock_script) {
                    Some(key) => spec_is_notary_at(nndata, *height, key),
                    None => false,
                }
                &&& !(nndata is Some && spec_parse_p2pk(output@.lock_script) is Some
                    && !spec_height_has_season(nndata, *height))
            },
            Err(e) => {
                &&& e == NotaryDataError::NoSeasonForHeight
                &&& nndata is Some
                &&& spec_parse_p2pk(output@.lock_script) is Some
                &&& !spec_height_has_season(nndata, *height)
            },
        },
{
    match nndata {
        None => {},
        Some(data) => {
            if parse_p2pk(&output.lock_script).is_some() && data.get_kmd_season(height).is_err() {
                return Err(NotaryDataError::NoSeasonForHeight);
            }
        },
    }
    Ok(komodo_is_notary_node_output(nndata, height, output))
}

/// The height of the season 6 hard fork.
///
/// `nndata` is the notary data, or none where it could not be reached: the
/// call then fails with [`NotaryDataError::NoNotaryPubkeysInitialised`].
pub fn komodo_s6_hardfork_height(nndata: Option<&NNData>) -> (r: Result<Height, NotaryDataError>)
    ensures
        match nndata {
            None => r == Err::<Height, NotaryDataError>(
                NotaryDataError::NoNotaryPubkeysInitialised,
            ),
            Some(data) => r == Ok::<Height, NotaryDataError>(
                Height(data.spec_season_heights()[S6_HARDFORK_SEASON as int]),
            ),
        },
{
    match nndata {
        Some(data) => Ok(data.s6_hardfork_height()),
        None => Err(NotaryDataError::NoNotaryPubkeysInitialised),
    }
}

/// The height of the December 2019 hard fork.
///
/// `nndata` is the notary data, or none where it could not be reached: the
/// call then fails with [`NotaryDataError::NoNotaryPubkeysInitialised`].
pub fn komodo_s1_hardfork_height(nndata: Option<&NNData>) -> (r: Result<Height, NotaryDataError>)
    ensures
        match nndata {
            None => r == Err::<Height, NotaryDataError>(
                NotaryDataError::NoNotaryPubkeysInitialised,
            ),
            Some(data) => r == Ok::<Height, NotaryDataError>(
                Height(data.spec_season_heights()[DECEMBER_HARDFORK_SEASON as int]),
            ),
        },
{
    match nndata {
        Some(data) => Ok(data.december_hardfork_height()),
        None => Err(NotaryDataError::NoNotaryPubkeysInitialised),
    }
}

/// The seat of a key at a height is its seat in the one season that holds
/// the height: where no key holds two seats of that season, the notary id of
/// `key` at `height` is `i` exactly where the notary at seat `i` of the
/// season of `height` has the key. Heights above the last season have no
/// season and no notary ids.
pub proof fn lemma_notary_id_for_height(data: NNData, height: Height, key: Seq<u8>, i: int)
    requires
        data.wf(),
        forall|s: int|
            0 <= s < data.spec_notaries_elected().len() ==> spec_distinct_keys(
                #[trigger] data.spec_notaries_elected()[s],
            ),
    ensures
        height.0 > data.spec_season_heights().last() <==> data.spec_notary_id_for_height(
            height,
            key,
        ) is Err,
        height.0 <= data.spec_season_heights().last() ==> {
            let season = spec_season_index(data.spec_season_heights(), height.0)->Some_0;
            &&& spec_is_season_of(data.spec_season_heights(), season, height.0)
            &&& data.spec_notary_id_for_height(height, key) == Ok::<Option<int>, NotaryDataError>(
                Some(i),
            ) <==> (0 <= i < NUM_KMD_NOTARIES && data.spec_notaries_elected()[season][i].1@
                == key)
        },
{
    lemma_seasons_partition(data.spec_season_heights(), height.0);
    if height.0 <= data.spec_season_heights().last() {
        let season = spec_season_index(data.spec_season_heights(), height.0)->Some_0;
        assert(spec_is_season_of(data.spec_season_heights(), season, height.0));
        let roster = data.spec_notaries_elected()[season];
        assert(roster.len() == NUM_KMD_NOTARIES);
        lemma_notary_id_is_the_seat(roster, key);
    }
}

/// Bounds that grow at each step grow from each season to every later one.
pub proof fn lemma_steps_increase(bounds: Seq<u32>)
    requires
        forall|a: int| 0 < a < bounds.len() ==> bounds[a - 1] < #[trigger] bounds[a],
    ensures
        spec_increasing(bounds),
{
    assert forall|i: int, j: int| 0 <= i < j < bounds.len() implies bounds[i] < bounds[j] by {
        lemma_steps_increase_between(bounds, i, j);
    }
}

/// Bounds that grow at each step grow from season `i` to season `j`.
pub proof fn lemma_steps_increase_between(bounds: Seq<u32>, i: int, j: int)
    requires
        forall|a: int| 0 < a < bounds.len() ==> bounds[a - 1] < #[trigger] bounds[a],
        0 <= i < j < bounds.len(),
    ensures
        bounds[i] < bounds[j],
    decreases j - i,
{
    if i + 1 < j {
        lemma_steps_increase_between(bounds, i, j - 1);
    }
    assert(bounds[j - 1] < bounds[j]);
}

} // verus!
