//! The song catalogue and the choice of a key for a song.
//!
//! A song is sung in another key by shifting all of its notes by the same
//! number of semitones. A shift fits a singer strictly when the shifted
//! melody lies within the singer's range. Among the shifts that fit, one
//! that keeps the top of the melody at or below the singer's comfortable
//! top is wanted, and as close to that top as can be.

use crate::text::{parse_i32, signed_number, trim, trimmed};
use vstd::prelude::*;
use vstd::string::*;

verus! {

/// One song of the catalogue. Notes are MIDI note numbers.
#[derive(Debug)]
pub struct SongEntry {
    pub title: String,
    pub artist: String,
    pub melody_low_midi: i32,
    pub melody_high_midi: i32,
    pub chorus_low_midi: i32,
    pub chorus_high_midi: i32,
    pub high_note_count: i32,
    pub high_note_max_midi: i32,
    pub high_note_total_ms: i32,
    pub is_imported: bool,
}

/// A song as plain values.
pub struct SongView {
    pub title: Seq<char>,
    pub artist: Seq<char>,
    pub melody_low_midi: i32,
    pub melody_high_midi: i32,
    pub chorus_low_midi: i32,
    pub chorus_high_midi: i32,
    pub high_note_count: i32,
    pub high_note_max_midi: i32,
    pub high_note_total_ms: i32,
    pub is_imported: bool,
}

impl View for SongEntry {
    type V = SongView;

    open spec fn view(&self) -> SongView {
        SongView {
            title: self.title@,
            artist: self.artist@,
            melody_low_midi: self.melody_low_midi,
            melody_high_midi: self.melody_high_midi,
            chorus_low_midi: self.chorus_low_midi,
            chorus_high_midi: self.chorus_high_midi,
            high_note_count: self.high_note_count,
            high_note_max_midi: self.high_note_max_midi,
            high_note_total_ms: self.high_note_total_ms,
            is_imported: self.is_imported,
        }
    }
}

impl Clone for SongEntry {
    fn clone(&self) -> (copy: SongEntry)
        ensures
            copy@ == self@,
    {
        SongEntry {
            title: self.title.clone(),
            artist: self.artist.clone(),
            melody_low_midi: self.melody_low_midi,
            melody_high_midi: self.melody_high_midi,
            chorus_low_midi: self.chorus_low_midi,
            chorus_high_midi: self.chorus_high_midi,
            high_note_count: self.high_note_count,
            high_note_max_midi: self.high_note_max_midi,
            high_note_total_ms: self.high_note_total_ms,
            is_imported: self.is_imported,
        }
    }
}

pub open spec fn magnitude(i: int) -> int {
    if i < 0 {
        -i
    } else {
        i
    }
}

pub open spec fn excess(i: int) -> int {
    if i < 0 {
        0
    } else {
        i
    }
}

/// The least shift that lifts the melody's bottom to the singer's.
pub open spec fn least_shift(low: int, user_low: int) -> int {
    user_low - low
}

/// The greatest shift that keeps the melody's top at the singer's.
pub open spec fn greatest_shift(high: int, user_high: int) -> int {
    user_high - high
}

/// A shift fits strictly: the shifted melody lies within the range.
pub open spec fn fits(low: int, high: int, user_low: int, user_high: int, shift: int) -> bool {
    least_shift(low, user_low) <= shift <= greatest_shift(high, user_high)
}

/// How far the shifted top is from the comfortable top, on the side that
/// counts: below it where `comfortable`, above it where not.
pub open spec fn distance(high: int, comfort_high: int, shift: int, comfortable: bool) -> int {
    if comfortable {
        comfort_high - (high + shift)
    } else {
        (high + shift) - comfort_high
    }
}

/// `a` comes before `b` where shifts are ordered by distance, then by
/// size, and equals stay in rising order.
pub open spec fn precedes(
    high: int,
    comfort_high: int,
    comfortable: bool,
    a: int,
    b: int,
) -> bool {
    let da = distance(high, comfort_high, a, comfortable);
    let db = distance(high, comfort_high, b, comfortable);
    da < db || (da == db && (magnitude(a) < magnitude(b) || (magnitude(a) == magnitude(b) && a
        <= b)))
}

/// `shift` is the strict choice for a melody from `low` to `high`: it
/// fits, and it comes first among the shifts that fit and keep the top at or
/// below the comfortable top, or, where there are none, among all that fit.
pub open spec fn is_strict_choice(
    low: int,
    high: int,
    user_low: int,
    user_high: int,
    comfort_high: int,
    shift: int,
) -> bool {
    let some_comfortable = exists|t: int|
        fits(low, high, user_low, user_high, t) && high + t <= comfort_high;
    &&& fits(low, high, user_low, user_high, shift)
    &&& some_comfortable ==> high + shift <= comfort_high && forall|t: int|
        fits(low, high, user_low, user_high, t) && high + t <= comfort_high ==> precedes(
            high,
            comfort_high,
            true,
            shift,
            t,
        )
    &&& !some_comfortable ==> forall|t: int|
        fits(low, high, user_low, user_high, t) ==> precedes(high, comfort_high, false, shift, t)
}

/// The strict choice in closed form: the greatest fitting shift that
/// keeps the top comfortable, or the least fitting shift where none does.
pub open spec fn strict_choice(
    low: int,
    high: int,
    user_low: int,
    user_high: int,
    comfort_high: int,
) -> Option<int> {
    let least = least_shift(low, user_low);
    let greatest = greatest_shift(high, user_high);
    let comfortable = comfort_high - high;
    if least > greatest {
        None
    } else if least <= comfortable {
        Some(if greatest <= comfortable { greatest } else { comfortable })
    } else {
        Some(least)
    }
}

/// The closed form is the strict choice, and there is no other.
pub proof fn lemma_strict_choice(
    low: int,
    high: int,
    user_low: int,
    user_high: int,
    comfort_high: int,
    shift: int,
)
    ensures
        strict_choice(low, high, user_low, user_high, comfort_high) == Some(shift)
            <==> is_strict_choice(low, high, user_low, user_high, comfort_high, shift),
        strict_choice(low, high, user_low, user_high, comfort_high) is None <==> !exists|t: int|
            fits(low, high, user_low, user_high, t),
{
    let least = least_shift(low, user_low);
    let greatest = greatest_shift(high, user_high);
    let comfortable = comfort_high - high;
    if least <= greatest {
        if least <= comfortable {
            assert(fits(low, high, user_low, user_high, least) && high + least <= comfort_high);
            let best = if greatest <= comfortable {
                greatest
            } else {
                comfortable
            };
            if is_strict_choice(low, high, user_low, user_high, comfort_high, shift) {
                assert(precedes(high, comfort_high, true, shift, best));
            }
        }
    }
}

/// The key to sing a song in, chosen among the shifts that fit strictly;
/// none where no shift fits.
pub fn pick_shift(song: &SongEntry, user_low: i32, user_high: i32, comfort_high: i32) -> (r:
    Option<i32>)
    requires
        i32::MIN <= user_low - song.melody_low_midi <= i32::MAX,
        i32::MIN <= user_high - song.melody_high_midi <= i32::MAX,
    ensures
        match r {
            Some(shift) => is_strict_choice(
                song.melody_low_midi as int,
                song.melody_high_midi as int,
                user_low as int,
                user_high as int,
                comfort_high as int,
                shift as int,
            ),
            None => !exists|t: int|
                fits(
                    song.melody_low_midi as int,
                    song.melody_high_midi as int,
                    user_low as int,
                    user_high as int,
                    t,
                ),
        },
        r == match strict_choice(
            song.melody_low_midi as int,
            song.melody_high_midi as int,
            user_low as int,
            user_high as int,
            comfort_high as int,
        ) {
            Some(shift) => Some(shift as i32),
            None => None,
        },
{
    let least: i64 = user_low as i64 - song.melody_low_midi as i64;
    let greatest: i64 = user_high as i64 - song.melody_high_midi as i64;
    let comfortable: i64 = comfort_high as i64 - song.melody_high_midi as i64;
    if least > greatest {
        proof {
            lemma_strict_choice(
                song.melody_low_midi as int,
                song.melody_high_midi as int,
                user_low as int,
                user_high as int,
                comfort_high as int,
                0,
            );
        }
        return None;
    }
    let best: i64 = if least <= comfortable {
        if greatest <= comfortable {
            greatest
        } else {
            comfortable
        }
    } else {
        least
    };
    proof {
        lemma_strict_choice(
            song.melody_low_midi as int,
            song.melody_high_midi as int,
            user_low as int,
            user_high as int,
            comfort_high as int,
            best as int,
        );
    }
    Some(best as i32)
}

/// Whether the strict choice for a song can be worked out in this
/// machine's arithmetic.
pub fn strict_choice_fits(song: &SongEntry, user_low: i32, user_high: i32) -> (ok: bool)
    ensures
        ok == (i32::MIN <= user_low - song.melody_low_midi <= i32::MAX && i32::MIN <= user_high
            - song.melody_high_midi <= i32::MAX),
{
    let least: i64 = user_low as i64 - song.melody_low_midi as i64;
    let greatest: i64 = user_high as i64 - song.melody_high_midi as i64;
    -2147483648 <= least && least <= 2147483647 && -2147483648 <= greatest && greatest
        <= 2147483647
}

/// How badly a shift misses: by how much the shifted melody leaves the
/// singer's range, then the size of the shift, then by how much the
/// shifted top lies above the comfortable top.
pub open spec fn miss(
    low: int,
    high: int,
    user_low: int,
    user_high: int,
    comfort_high: int,
    shift: int,
) -> (int, int, int) {
    (
        excess(user_low - (low + shift)) + excess((high + shift) - user_high),
        magnitude(shift),
        excess((high + shift) - comfort_high),
    )
}

/// `a` misses less than `b`.
pub open spec fn less(a: (int, int, int), b: (int, int, int)) -> bool {
    a.0 < b.0 || (a.0 == b.0 && (a.1 < b.1 || (a.1 == b.1 && a.2 < b.2)))
}

/// A shift is tried where it puts the melody's top within an octave of
/// the comfortable top.
pub open spec fn tried(high: int, comfort_high: int, shift: int) -> bool {
    comfort_high - high - 12 <= shift <= comfort_high - high + 12
}

/// `shift` is the relaxed choice: of the shifts that are tried it misses
/// least, and it is the lowest of those that miss as little.
pub open spec fn is_relaxed_choice(
    low: int,
    high: int,
    user_low: int,
    user_high: int,
    comfort_high: int,
    shift: int,
) -> bool {
    &&& tried(high, comfort_high, shift)
    &&& forall|t: int| #[trigger]
        tried(high, comfort_high, t) ==> {
            &&& t < shift ==> less(
                miss(low, high, user_low, user_high, comfort_high, shift),
                miss(low, high, user_low, user_high, comfort_high, t),
            )
            &&& !less(
                miss(low, high, user_low, user_high, comfort_high, t),
                miss(low, high, user_low, user_high, comfort_high, shift),
            )
        }
}

/// The relaxed choice.
pub open spec fn relaxed_choice(
    low: int,
    high: int,
    user_low: int,
    user_high: int,
    comfort_high: int,
) -> int {
    choose|shift: int| is_relaxed_choice(low, high, user_low, user_high, comfort_high, shift)
}

/// There is one relaxed choice at most.
pub proof fn lemma_relaxed_choice_is_unique(
    low: int,
    high: int,
    user_low: int,
    user_high: int,
    comfort_high: int,
    a: int,
    b: int,
)
    requires
        is_relaxed_choice(low, high, user_low, user_high, comfort_high, a),
        is_relaxed_choice(low, high, user_low, user_high, comfort_high, b),
    ensures
        a == b,
{
}

fn misses_less(a: (i64, i64, i64), b: (i64, i64, i64)) -> (r: bool)
    ensures
        r == less((a.0 as int, a.1 as int, a.2 as int), (b.0 as int, b.1 as int, b.2 as int)),
{
    a.0 < b.0 || (a.0 == b.0 && (a.1 < b.1 || (a.1 == b.1 && a.2 < b.2)))
}

fn miss_of(low: i32, high: i32, user_low: i32, user_high: i32, comfort_high: i32, shift: i64) -> (r:
    (i64, i64, i64))
    requires
        -0x1_0000_0000 <= shift <= 0x1_0000_0000,
    ensures
        (r.0 as int, r.1 as int, r.2 as int) == miss(
            low as int,
            high as int,
            user_low as int,
            user_high as int,
            comfort_high as int,
            shift as int,
        ),
{
    let final_low: i64 = low as i64 + shift;
    let final_high: i64 = high as i64 + shift;
    let under: i64 = user_low as i64 - final_low;
    let beyond: i64 = final_high - user_high as i64;
    let uneasy: i64 = final_high - comfort_high as i64;
    let below: i64 = if under < 0 {
        0
    } else {
        under
    };
    let above: i64 = if beyond < 0 {
        0
    } else {
        beyond
    };
    let size: i64 = if shift < 0 {
        -shift
    } else {
        shift
    };
    let over: i64 = if uneasy < 0 {
        0
    } else {
        uneasy
    };
    (below + above, size, over)
}

/// The key to sing a song in where it need not fit: the shift that
/// misses least among those that put the top of the melody within an
/// octave of the comfortable top.
pub fn pick_shift_relaxed(song: &SongEntry, user_low: i32, user_high: i32, comfort_high: i32) -> (r:
    i32)
    requires
        i32::MIN <= comfort_high - song.melody_high_midi - 12,
        comfort_high - song.melody_high_midi + 12 <= i32::MAX,
    ensures
        is_relaxed_choice(
            song.melody_low_midi as int,
            song.melody_high_midi as int,
            user_low as int,
            user_high as int,
            comfort_high as int,
            r as int,
        ),
        r == relaxed_choice(
            song.melody_low_midi as int,
            song.melody_high_midi as int,
            user_low as int,
            user_high as int,
            comfort_high as int,
        ),
{
    let low = song.melody_low_midi;
    let high = song.melody_high_midi;
    let center: i64 = comfort_high as i64 - high as i64;
    let first: i64 = center - 12;
    let last: i64 = center + 12;
    let mut best: i64 = first;
    let mut best_miss = miss_of(low, high, user_low, user_high, comfort_high, first);
    let mut shift: i64 = first + 1;
    while shift <= last
        invariant
            first == comfort_high - high - 12,
            last == comfort_high - high + 12,
            i32::MIN <= first,
            last <= i32::MAX,
            low == song.melody_low_midi,
            high == song.melody_high_midi,
            first <= best < shift <= last + 1,
            (best_miss.0 as int, best_miss.1 as int, best_miss.2 as int) == miss(
                low as int,
                high as int,
                user_low as int,
                user_high as int,
                comfort_high as int,
                best as int,
            ),
            forall|t: int|
                first <= t < shift ==> {
                    &&& t < best ==> less(
                        miss(
                            low as int,
                            high as int,
                            user_low as int,
                            user_high as int,
                            comfort_high as int,
                            best as int,
                        ),
                        #[trigger] miss(
                            low as int,
                            high as int,
                            user_low as int,
                            user_high as int,
                            comfort_high as int,
                            t,
                        ),
                    )
                    &&& !less(
                        miss(
                            low as int,
                            high as int,
                            user_low as int,
                            user_high as int,
                            comfort_high as int,
                            t,
                        ),
                        miss(
                            low as int,
                            high as int,
                            user_low as int,
                            user_high as int,
                            comfort_high as int,
                            best as int,
                        ),
                    )
                },
        decreases last + 1 - shift,
    {
        let here = miss_of(low, high, user_low, user_high, comfort_high, shift);
        if misses_less(here, best_miss) {
            best = shift;
            best_miss = here;
        }
        shift = shift + 1;
    }
    proof {
        assert(is_relaxed_choice(
            low as int,
            high as int,
            user_low as int,
            user_high as int,
            comfort_high as int,
            best as int,
        ));
        lemma_relaxed_choice_is_unique(
            low as int,
            high as int,
            user_low as int,
            user_high as int,
            comfort_high as int,
            best as int,
            relaxed_choice(
                low as int,
                high as int,
                user_low as int,
                user_high as int,
                comfort_high as int,
            ),
        );
    }
    best as i32
}

/// Whether the relaxed choice for a song can be worked out in this
/// machine's arithmetic.
pub fn relaxed_choice_fits(song: &SongEntry, comfort_high: i32) -> (ok: bool)
    ensures
        ok == (i32::MIN <= comfort_high - song.melody_high_midi - 12 && comfort_high
            - song.melody_high_midi + 12 <= i32::MAX),
{
    let center: i64 = comfort_high as i64 - song.melody_high_midi as i64;
    -2147483648 <= center - 12 && center + 12 <= 2147483647
}

/// The records of a catalogue file, each a list of fields. The file is
/// comma-separated text; its first record is a header and is not among
/// them; records may differ in their number of fields; a record that is
/// not valid UTF-8 is left out.
pub uninterp spec fn csv_rows(data: Seq<u8>) -> Seq<Seq<Seq<char>>>;

/// Reads the records of a catalogue file with the `csv` crate: a
/// `ReaderBuilder` with `flexible(true)` and otherwise its defaults,
/// `from_reader` on the bytes, and `records()`, of which those that
/// are `Ok` are kept, each field copied into a `String`. What the crate
/// makes of the bytes is not stated here, only named: [`csv_rows`].
#[verifier::external_body]
fn read_rows(data: &[u8]) -> (rows: Vec<Vec<String>>)
    ensures
        rows.deep_view() == csv_rows(data@),
{
    let mut reader = csv::ReaderBuilder::new().flexible(true).from_reader(data);
    let mut rows: Vec<Vec<String>> = Vec::new();
    for item in reader.records() {
        if let Ok(record) = item {
            rows.push(record.iter().map(|field| field.to_string()).collect());
        }
    }
    rows
}

/// Field `i` of a record without the white space at its ends; empty
/// where the record has no such field.
pub open spec fn field(row: Seq<Seq<char>>, i: int) -> Seq<char> {
    if 0 <= i < row.len() {
        trimmed(row[i])
    } else {
        Seq::empty()
    }
}

/// The song that a record describes: title, artist, then seven whole
/// numbers. A record in which one of the seven is missing or is no number
/// describes no song. Further fields are not looked at.
pub open spec fn song_of(row: Seq<Seq<char>>, is_imported: bool) -> Option<SongView> {
    if signed_number(field(row, 2)) is Some && signed_number(field(row, 3)) is Some
        && signed_number(field(row, 4)) is Some && signed_number(field(row, 5)) is Some
        && signed_number(field(row, 6)) is Some && signed_number(field(row, 7)) is Some
        && signed_number(field(row, 8)) is Some {
        Some(
            SongView {
                title: field(row, 0),
                artist: field(row, 1),
                melody_low_midi: signed_number(field(row, 2))->0,
                melody_high_midi: signed_number(field(row, 3))->0,
                chorus_low_midi: signed_number(field(row, 4))->0,
                chorus_high_midi: signed_number(field(row, 5))->0,
                high_note_count: signed_number(field(row, 6))->0,
                high_note_max_midi: signed_number(field(row, 7))->0,
                high_note_total_ms: signed_number(field(row, 8))->0,
                is_imported,
            },
        )
    } else {
        None
    }
}

/// The songs that the records describe, in the order of the records.
pub open spec fn songs_of(rows: Seq<Seq<Seq<char>>>, is_imported: bool) -> Seq<SongView>
    decreases rows.len(),
{
    if rows.len() == 0 {
        Seq::empty()
    } else {
        let before = songs_of(rows.drop_last(), is_imported);
        match song_of(rows.last(), is_imported) {
            Some(song) => before.push(song),
            None => before,
        }
    }
}

/// The songs of a list as plain values.
pub open spec fn song_views(songs: Seq<SongEntry>) -> Seq<SongView> {
    songs.map_values(|s: SongEntry| s@)
}

fn field_of<'a>(row: &'a Vec<String>, i: usize) -> (text: &'a str)
    ensures
        text@ == field(row.deep_view(), i as int),
{
    if i < row.len() {
        trim(row[i].as_str())
    } else {
        proof {
            reveal_strlit("");
        }
        ""
    }
}

/// The song that a record describes, if it describes one.
pub fn song_from_row(row: &Vec<String>, is_imported: bool) -> (r: Option<SongEntry>)
    ensures
        match r {
            Some(song) => song_of(row.deep_view(), is_imported) == Some(song@),
            None => song_of(row.deep_view(), is_imported) is None,
        },
{
    let low = parse_i32(field_of(row, 2));
    let high = parse_i32(field_of(row, 3));
    let chorus_low = parse_i32(field_of(row, 4));
    let chorus_high = parse_i32(field_of(row, 5));
    let count = parse_i32(field_of(row, 6));
    let max = parse_i32(field_of(row, 7));
    let total = parse_i32(field_of(row, 8));
    match (low, high, chorus_low, chorus_high, count, max, total) {
        (
            Some(melody_low_midi),
            Some(melody_high_midi),
            Some(chorus_low_midi),
            Some(chorus_high_midi),
            Some(high_note_count),
            Some(high_note_max_midi),
            Some(high_note_total_ms),
        ) => Some(
            SongEntry {
                title: String::from_str(field_of(row, 0)),
                artist: String::from_str(field_of(row, 1)),
                melody_low_midi,
                melody_high_midi,
                chorus_low_midi,
                chorus_high_midi,
                high_note_count,
                high_note_max_midi,
                high_note_total_ms,
                is_imported,
            },
        ),
        _ => None,
    }
}

/// The songs that records describe, in the order of the records; records
/// that describe none are passed over.
pub fn songs_from_rows(rows: &Vec<Vec<String>>, is_imported: bool) -> (out: Vec<SongEntry>)
    ensures
        song_views(out@) == songs_of(rows.deep_view(), is_imported),
{
    let ghost all = rows.deep_view();
    let mut out: Vec<SongEntry> = Vec::new();
    let mut i: usize = 0;
    while i < rows.len()
        invariant
            i <= rows.len(),
            all == rows.deep_view(),
            all.len() == rows.len(),
            song_views(out@) == songs_of(all.take(i as int), is_imported),
        decreases rows.len() - i,
    {
        proof {
            assert(all.take(i as int + 1).drop_last() =~= all.take(i as int));
        }
        match song_from_row(&rows[i], is_imported) {
            Some(song) => {
                out.push(song);
            },
            None => {},
        }
        i = i + 1;
    }
    proof {
        assert(all.take(rows.len() as int) =~= all);
    }
    out
}

/// The songs of one catalogue file.
pub fn parse_song_csv(data: &[u8], is_imported: bool) -> (out: Vec<SongEntry>)
    ensures
        song_views(out@) == songs_of(csv_rows(data@), is_imported),
{
    let rows = read_rows(data);
    songs_from_rows(&rows, is_imported)
}

/// The catalogue: the songs of the file that ships with the program,
/// then those of the file of imported songs, which are marked as imported.
/// A file that is not there is given as no bytes.
pub fn parse_song_library(base: &[u8], generated: &[u8]) -> (all: Vec<SongEntry>)
    ensures
        song_views(all@) == songs_of(csv_rows(base@), false) + songs_of(
            csv_rows(generated@),
            true,
        ),
{
    let mut all = parse_song_csv(base, false);
    let mut imported = parse_song_csv(generated, true);
    all.append(&mut imported);
    all
}

/// A song of the catalogue, by its place there, and the key to sing it in.
#[derive(Clone, Copy, Debug, PartialEq, Eq, Structural)]
pub struct Pick {
    pub song: usize,
    pub shift: i32,
}

/// A singer's range and comfortable range are given in order.
pub open spec fn ranges_in_order(
    user_low: int,
    user_high: int,
    comfort_low: int,
    comfort_high: int,
) -> bool {
    user_low <= user_high && comfort_low <= comfort_high
}

/// Whether a singer's range and comfortable range are given in order.
pub fn valid_ranges(user_low: i32, user_high: i32, comfort_low: i32, comfort_high: i32) -> (ok:
    bool)
    ensures
        ok == ranges_in_order(
            user_low as int,
            user_high as int,
            comfort_low as int,
            comfort_high as int,
        ),
{
    user_low <= user_high && comfort_low <= comfort_high
}

/// The strict choice for a song can be worked out in 32-bit arithmetic.
pub open spec fn strict_fits(song: SongView, user_low: int, user_high: int) -> bool {
    i32::MIN <= user_low - song.melody_low_midi <= i32::MAX && i32::MIN <= user_high
        - song.melody_high_midi <= i32::MAX
}

/// The relaxed choice for a song can be worked out in 32-bit arithmetic.
pub open spec fn relaxed_fits(song: SongView, comfort_high: int) -> bool {
    i32::MIN <= comfort_high - song.melody_high_midi - 12 && comfort_high - song.melody_high_midi
        + 12 <= i32::MAX
}

/// The key that a song is offered in: its strict choice; where it has
/// none, the relaxed choice if the song was imported, else none.
pub open spec fn offered_shift(
    song: SongView,
    user_low: int,
    user_high: int,
    comfort_high: int,
) -> Option<int> {
    match strict_choice(
        song.melody_low_midi as int,
        song.melody_high_midi as int,
        user_low,
        user_high,
        comfort_high,
    ) {
        Some(shift) => Some(shift),
        None => if song.is_imported {
            Some(
                relaxed_choice(
                    song.melody_low_midi as int,
                    song.melody_high_midi as int,
                    user_low,
                    user_high,
                    comfort_high,
                ),
            )
        } else {
            None
        },
    }
}

/// The songs that are offered, in the order of the catalogue.
pub open spec fn offered(
    songs: Seq<SongView>,
    user_low: int,
    user_high: int,
    comfort_high: int,
) -> Seq<Pick>
    decreases songs.len(),
{
    if songs.len() == 0 {
        Seq::empty()
    } else {
        let before = offered(songs.drop_last(), user_low, user_high, comfort_high);
        match offered_shift(songs.last(), user_low, user_high, comfort_high) {
            Some(shift) => before.push(
                Pick { song: (songs.len() - 1) as usize, shift: shift as i32 },
            ),
            None => before,
        }
    }
}

/// Every song in its relaxed choice, in the order of the catalogue.
pub open spec fn all_relaxed(
    songs: Seq<SongView>,
    user_low: int,
    user_high: int,
    comfort_high: int,
) -> Seq<Pick> {
    Seq::new(
        songs.len(),
        |i: int|
            Pick {
                song: i as usize,
                shift: relaxed_choice(
                    songs[i].melody_low_midi as int,
                    songs[i].melody_high_midi as int,
                    user_low,
                    user_high,
                    comfort_high,
                ) as i32,
            },
    )
}

/// The offered songs can be worked out in 32-bit arithmetic.
pub open spec fn offer_fits(
    songs: Seq<SongView>,
    user_low: int,
    user_high: int,
    comfort_high: int,
) -> bool {
    forall|i: int|
        0 <= i < songs.len() ==> strict_fits(#[trigger] songs[i], user_low, user_high) && (
        songs[i].is_imported && strict_choice(
            songs[i].melody_low_midi as int,
            songs[i].melody_high_midi as int,
            user_low,
            user_high,
            comfort_high,
        ) is None ==> relaxed_fits(songs[i], comfort_high))
}

/// Every relaxed choice can be worked out in 32-bit arithmetic.
pub open spec fn all_relaxed_fit(songs: Seq<SongView>, comfort_high: int) -> bool {
    forall|i: int| 0 <= i < songs.len() ==> relaxed_fits(#[trigger] songs[i], comfort_high)
}

/// The songs to recommend, each with its key, before they are ranked:
/// the songs that are offered, or, where none is, every song in its relaxed
/// choice. None where a key cannot be worked out in 32-bit arithmetic.
pub open spec fn recommendation_plan(
    songs: Seq<SongView>,
    user_low: int,
    user_high: int,
    comfort_high: int,
) -> Option<Seq<Pick>> {
    if !offer_fits(songs, user_low, user_high, comfort_high) {
        None
    } else if offered(songs, user_low, user_high, comfort_high).len() > 0 {
        Some(offered(songs, user_low, user_high, comfort_high))
    } else if all_relaxed_fit(songs, comfort_high) {
        Some(all_relaxed(songs, user_low, user_high, comfort_high))
    } else {
        None
    }
}

/// A song that is offered in its strict choice lies within the singer's
/// range in that key.
pub proof fn lemma_strict_choice_is_in_range(
    low: int,
    high: int,
    user_low: int,
    user_high: int,
    comfort_high: int,
)
    ensures
        strict_choice(low, high, user_low, user_high, comfort_high) matches Some(shift)
            ==> user_low <= low + shift && high + shift <= user_high,
{
}

/// Works out which songs to recommend, and in which keys.
pub fn plan_recommendations(
    songs: &Vec<SongEntry>,
    user_low: i32,
    user_high: i32,
    comfort_high: i32,
) -> (plan: Option<Vec<Pick>>)
    ensures
        match recommendation_plan(
            song_views(songs@),
            user_low as int,
            user_high as int,
            comfort_high as int,
        ) {
            Some(picks) => plan matches Some(out) && out@ == picks,
            None => plan is None,
        },
{
    let ghost views = song_views(songs@);
    let ghost ul = user_low as int;
    let ghost uh = user_high as int;
    let ghost ch = comfort_high as int;
    let mut out: Vec<Pick> = Vec::new();
    let mut i: usize = 0;
    while i < songs.len()
        invariant
            i <= songs.len(),
            views == song_views(songs@),
            views.len() == songs.len(),
            ul == user_low,
            uh == user_high,
            ch == comfort_high,
            offer_fits(views.take(i as int), ul, uh, ch),
            out@ == offered(views.take(i as int), ul, uh, ch),
        decreases songs.len() - i,
    {
        let song = &songs[i];
        proof {
            assert(views.take(i as int + 1).drop_last() =~= views.take(i as int));
        }
        if !strict_choice_fits(song, user_low, user_high) {
            assert(!offer_fits(views, ul, uh, ch)) by {
                assert(!strict_fits(views[i as int], ul, uh));
            }
            return None;
        }
        match pick_shift(song, user_low, user_high, comfort_high) {
            Some(shift) => {
                out.push(Pick { song: i, shift });
            },
            None => {
                if song.is_imported {
                    if !relaxed_choice_fits(song, comfort_high) {
                        assert(!offer_fits(views, ul, uh, ch)) by {
                            assert(!relaxed_fits(views[i as int], ch));
                        }
                        return None;
                    }
                    let shift = pick_shift_relaxed(song, user_low, user_high, comfort_high);
                    out.push(Pick { song: i, shift });
                }
            },
        }
        proof {
            assert(offer_fits(views.take(i as int + 1), ul, uh, ch));
        }
        i = i + 1;
    }
    proof {
        assert(views.take(songs.len() as int) =~= views);
    }
    if out.len() > 0 {
        return Some(out);
    }
    let mut k: usize = 0;
    while k < songs.len()
        invariant
            k <= songs.len(),
            views == song_views(songs@),
            views.len() == songs.len(),
            ul == user_low,
            uh == user_high,
            ch == comfort_high,
            out@.len() == k,
            offer_fits(views, ul, uh, ch),
            offered(views, ul, uh, ch).len() == 0,
            forall|j: int| 0 <= j < k ==> relaxed_fits(#[trigger] views[j], ch),
            forall|j: int| 0 <= j < k ==> out@[j] == all_relaxed(views, ul, uh, ch)[j],
        decreases songs.len() - k,
    {
        let song = &songs[k];
        if !relaxed_choice_fits(song, comfort_high) {
            assert(!all_relaxed_fit(views, ch)) by {
                assert(!relaxed_fits(views[k as int], ch));
            }
            return None;
        }
        let shift = pick_shift_relaxed(song, user_low, user_high, comfort_high);
        out.push(Pick { song: k, shift });
        k = k + 1;
    }
    Some(out)
}

} // verus!
