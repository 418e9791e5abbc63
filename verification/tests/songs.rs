use mypitch::songs::{
    parse_song_csv, parse_song_library, pick_shift, pick_shift_relaxed, relaxed_choice_fits,
    song_from_row, songs_from_rows, strict_choice_fits, SongEntry,
};
use mypitch::text::parse_i32;

fn song(low: i32, high: i32) -> SongEntry {
    SongEntry {
        title: "T".to_string(),
        artist: "A".to_string(),
        melody_low_midi: low,
        melody_high_midi: high,
        chorus_low_midi: low,
        chorus_high_midi: high,
        high_note_count: 0,
        high_note_max_midi: high,
        high_note_total_ms: 0,
        is_imported: false,
    }
}

fn strict_by_sorting(s: &SongEntry, user_low: i32, user_high: i32, comfort_high: i32) -> Option<i32> {
    let min_shift = user_low - s.melody_low_midi;
    let max_shift = user_high - s.melody_high_midi;
    if min_shift > max_shift {
        return None;
    }
    let mut candidates: Vec<i32> = (min_shift..=max_shift).collect();
    let mut comfortable: Vec<i32> = candidates
        .iter()
        .copied()
        .filter(|shift| s.melody_high_midi + shift <= comfort_high)
        .collect();
    if !comfortable.is_empty() {
        comfortable.sort_by_key(|shift| (comfort_high - (s.melody_high_midi + shift), shift.abs()));
        return comfortable.first().copied();
    }
    candidates.sort_by_key(|shift| ((s.melody_high_midi + shift) - comfort_high, shift.abs()));
    candidates.first().copied()
}

fn relaxed_by_search(s: &SongEntry, user_low: i32, user_high: i32, comfort_high: i32) -> i32 {
    let center = comfort_high - s.melody_high_midi;
    let mut best_shift = center;
    let mut best_key = (i32::MAX, i32::MAX, i32::MAX);
    for shift in (center - 12)..=(center + 12) {
        let final_low = s.melody_low_midi + shift;
        let final_high = s.melody_high_midi + shift;
        let below = (user_low - final_low).max(0);
        let above = (final_high - user_high).max(0);
        let key = (below + above, shift.abs(), (final_high - comfort_high).max(0));
        if key < best_key {
            best_key = key;
            best_shift = shift;
        }
    }
    best_shift
}

#[test]
fn strict_choice_puts_the_top_at_the_comfortable_top() {
    assert_eq!(pick_shift(&song(50, 62), 45, 69, 64), Some(2));
    assert_eq!(pick_shift(&song(48, 64), 45, 69, 64), Some(0));
    assert_eq!(pick_shift(&song(55, 70), 45, 69, 64), Some(-6));
}

#[test]
fn strict_choice_stops_at_the_greatest_shift_that_fits() {
    assert_eq!(pick_shift(&song(40, 50), 45, 55, 64), Some(5));
    assert_eq!(pick_shift(&song(40, 50), 45, 60, 64), Some(10));
    assert_eq!(pick_shift(&song(40, 50), 45, 60, 58), Some(8));
}

#[test]
fn strict_choice_above_comfort_is_the_least_shift() {
    assert_eq!(pick_shift(&song(50, 70), 48, 69, 60), Some(-2));
    assert_eq!(pick_shift(&song(45, 69), 45, 69, 64), Some(0));
}

#[test]
fn no_strict_choice_for_a_melody_wider_than_the_range() {
    assert_eq!(pick_shift(&song(40, 70), 45, 69, 64), None);
    assert_eq!(pick_shift(&song(45, 70), 45, 69, 64), None);
}

#[test]
fn strict_choice_agrees_with_sorting_the_candidates() {
    for low in (30..60).step_by(3) {
        for span in [0, 5, 12, 19, 24, 25, 30] {
            for comfort in [40, 55, 60, 64, 69, 75] {
                let s = song(low, low + span);
                assert!(strict_choice_fits(&s, 45, 69));
                assert_eq!(
                    pick_shift(&s, 45, 69, comfort),
                    strict_by_sorting(&s, 45, 69, comfort),
                    "low {} span {} comfort {}",
                    low,
                    span,
                    comfort
                );
            }
        }
    }
}

#[test]
fn relaxed_choice_exact_values() {
    assert_eq!(pick_shift_relaxed(&song(40, 70), 45, 69, 64), 0);
    assert_eq!(pick_shift_relaxed(&song(50, 62), 45, 69, 64), 0);
    assert_eq!(pick_shift_relaxed(&song(20, 90), 45, 69, 64), -14);
}

#[test]
fn relaxed_choice_agrees_with_the_search() {
    for low in (20..70).step_by(3) {
        for span in [0, 5, 12, 24, 30, 40] {
            for comfort in [40, 55, 64, 75] {
                let s = song(low, low + span);
                assert!(relaxed_choice_fits(&s, comfort));
                assert_eq!(
                    pick_shift_relaxed(&s, 45, 69, comfort),
                    relaxed_by_search(&s, 45, 69, comfort),
                    "low {} span {} comfort {}",
                    low,
                    span,
                    comfort
                );
            }
        }
    }
}

#[test]
fn arithmetic_limits_are_told() {
    assert!(!strict_choice_fits(&song(-2, 0), i32::MAX, 0));
    assert!(!strict_choice_fits(&song(0, i32::MIN), 0, 0));
    assert!(strict_choice_fits(&song(0, 0), i32::MAX, i32::MIN));
    assert!(!relaxed_choice_fits(&song(0, 0), i32::MAX - 11));
    assert!(relaxed_choice_fits(&song(0, 0), i32::MAX - 12));
    assert!(!relaxed_choice_fits(&song(0, 12), i32::MIN + 23));
    assert_eq!(pick_shift_relaxed(&song(0, 0), 0, 0, i32::MAX - 12), i32::MAX - 24);
    assert_eq!(pick_shift(&song(0, 0), i32::MAX, i32::MAX, 5), Some(i32::MAX));
}

#[test]
fn catalogue_file_is_read() {
    let data = b"title,artist,low,high,chorus_low,chorus_high,count,max,ms\n\
Song One,Band A,50,62,55,62,3,62,1500\n\
Song Two,Band B,48,70,52,70,12,70,9000\n";
    let songs = parse_song_csv(data, false);
    assert_eq!(songs.len(), 2);
    assert_eq!(songs[0].title, "Song One");
    assert_eq!(songs[0].artist, "Band A");
    assert_eq!(songs[0].melody_low_midi, 50);
    assert_eq!(songs[0].melody_high_midi, 62);
    assert_eq!(songs[0].chorus_low_midi, 55);
    assert_eq!(songs[0].chorus_high_midi, 62);
    assert_eq!(songs[0].high_note_count, 3);
    assert_eq!(songs[0].high_note_max_midi, 62);
    assert_eq!(songs[0].high_note_total_ms, 1500);
    assert!(!songs[0].is_imported);
    assert_eq!(songs[1].title, "Song Two");
    assert_eq!(songs[1].high_note_total_ms, 9000);
}

#[test]
fn fields_are_trimmed_and_quotes_are_understood() {
    let data = b"h\n  Spaced  ,\" Quoted, Name \", 50 ,\t62\t,55,62,+3,62,-1500,extra,more\n";
    let songs = parse_song_csv(data, true);
    assert_eq!(songs.len(), 1);
    assert_eq!(songs[0].title, "Spaced");
    assert_eq!(songs[0].artist, "Quoted, Name");
    assert_eq!(songs[0].melody_low_midi, 50);
    assert_eq!(songs[0].melody_high_midi, 62);
    assert_eq!(songs[0].high_note_count, 3);
    assert_eq!(songs[0].high_note_total_ms, -1500);
    assert!(songs[0].is_imported);
}

#[test]
fn records_without_seven_numbers_are_passed_over() {
    let data = b"header\n\
A,B,50,62,55,62,3,62\n\
C,D,50,62,55,62,3,62,x\n\
E,F,50,62,55,62,3,62,1.5\n\
G,H,50,62,55,62,3,62,\n\
I,J\n\
\xff\xfe,K,1,2,3,4,5,6,7\n\
L,M,1,2,3,4,5,6,2147483648\n\
N,O,1,2,3,4,5,6,7\n";
    let songs = parse_song_csv(data, false);
    assert_eq!(songs.len(), 1);
    assert_eq!(songs[0].title, "N");
    assert_eq!(songs[0].artist, "O");
}

#[test]
fn empty_file_has_no_songs() {
    assert!(parse_song_csv(b"", false).is_empty());
    assert!(parse_song_csv(b"title,artist\n", false).is_empty());
}

#[test]
fn first_record_is_a_header() {
    let data = b"A,B,1,2,3,4,5,6,7\nC,D,8,9,10,11,12,13,14\n";
    let songs = parse_song_csv(data, false);
    assert_eq!(songs.len(), 1);
    assert_eq!(songs[0].title, "C");
}

#[test]
fn library_lists_shipped_songs_before_imported_ones() {
    let base = b"h\nA,B,1,2,3,4,5,6,7\nC,D,1,2,3,4,5,6,7\n";
    let generated = b"h\nE,F,1,2,3,4,5,6,7\n";
    let all = parse_song_library(base, generated);
    assert_eq!(all.len(), 3);
    assert_eq!(all[0].title, "A");
    assert!(!all[0].is_imported);
    assert_eq!(all[1].title, "C");
    assert!(!all[1].is_imported);
    assert_eq!(all[2].title, "E");
    assert!(all[2].is_imported);
    assert_eq!(parse_song_library(b"", generated).len(), 1);
    assert_eq!(parse_song_library(base, b"").len(), 2);
    assert!(parse_song_library(b"", b"").is_empty());
}

#[test]
fn rows_become_songs() {
    let row: Vec<String> = ["  T ", "A", "1", " 2", "3 ", "4", "5", "6", "7"]
        .iter()
        .map(|s| s.to_string())
        .collect();
    let s = song_from_row(&row, true).expect("a song");
    assert_eq!(s.title, "T");
    assert_eq!(s.melody_high_midi, 2);
    assert_eq!(s.chorus_low_midi, 3);
    assert!(s.is_imported);
    let short: Vec<String> = vec!["T".to_string()];
    assert!(song_from_row(&short, true).is_none());
    assert!(song_from_row(&Vec::new(), true).is_none());
    let rows = vec![row.clone(), short, row];
    assert_eq!(songs_from_rows(&rows, false).len(), 2);
}

#[test]
fn whole_numbers_agree_with_the_standard_reader() {
    let texts = [
        "0", "-0", "+0", "1", "-1", "+1", "", "+", "-", "+-1", "-+1", "--1", "007", "-007",
        "2147483647", "2147483648", "-2147483648", "-2147483649", "+2147483647",
        "99999999999999999999", "-99999999999999999999", "12a", "a", " 1", "1 ", "1.0", "١",
        "1e3", "0x1",
    ];
    for t in texts {
        assert_eq!(parse_i32(t), t.parse::<i32>().ok(), "{:?}", t);
    }
}

#[test]
fn songs_can_be_copied() {
    let s = song(50, 62);
    let c = s.clone();
    assert_eq!(c.title, s.title);
    assert_eq!(c.melody_high_midi, 62);
}

fn entry(title: &str, low: i32, high: i32, imported: bool) -> SongEntry {
    let mut s = song(low, high);
    s.title = title.to_string();
    s.is_imported = imported;
    s
}

#[test]
fn plan_offers_the_songs_that_fit() {
    let songs = vec![
        entry("fits", 50, 62, false),
        entry("too wide", 40, 70, false),
        entry("too wide but imported", 40, 70, true),
        entry("fits too", 48, 64, true),
    ];
    let plan = mypitch::songs::plan_recommendations(&songs, 45, 69, 64).expect("a plan");
    let picks: Vec<(usize, i32)> = plan.iter().map(|p| (p.song, p.shift)).collect();
    assert_eq!(picks, vec![(0, 2), (2, 0), (3, 0)]);
}

#[test]
fn plan_without_any_offer_takes_every_song_relaxed() {
    let songs = vec![entry("wide", 40, 70, false), entry("wider", 20, 90, false)];
    let plan = mypitch::songs::plan_recommendations(&songs, 45, 69, 64).expect("a plan");
    let picks: Vec<(usize, i32)> = plan.iter().map(|p| (p.song, p.shift)).collect();
    assert_eq!(picks, vec![(0, 0), (1, -14)]);
    let none: Vec<SongEntry> = Vec::new();
    assert!(mypitch::songs::plan_recommendations(&none, 45, 69, 64).expect("a plan").is_empty());
}

#[test]
fn plan_beyond_the_arithmetic_is_refused() {
    let far = vec![entry("far", i32::MIN, i32::MIN, false)];
    assert!(mypitch::songs::plan_recommendations(&far, 45, 69, 64).is_none());
    let wide = vec![entry("wide", -10, i32::MAX - 5, false)];
    assert!(mypitch::songs::plan_recommendations(&wide, 0, i32::MAX, i32::MIN + 6).is_none());
}

#[test]
fn ranges_must_be_in_order() {
    assert!(mypitch::songs::valid_ranges(45, 69, 48, 64));
    assert!(mypitch::songs::valid_ranges(45, 45, 48, 48));
    assert!(!mypitch::songs::valid_ranges(70, 69, 48, 64));
    assert!(!mypitch::songs::valid_ranges(45, 69, 65, 64));
}

#[test]
fn every_kind_of_white_space_is_trimmed() {
    let spaces = [
        '\u{9}', '\u{a}', '\u{b}', '\u{c}', '\u{d}', ' ', '\u{85}', '\u{a0}', '\u{1680}',
        '\u{2000}', '\u{2001}', '\u{2002}', '\u{2003}', '\u{2004}', '\u{2005}', '\u{2006}',
        '\u{2007}', '\u{2008}', '\u{2009}', '\u{200a}', '\u{2028}', '\u{2029}', '\u{202f}',
        '\u{205f}', '\u{3000}',
    ];
    for c in spaces {
        let padded = format!("{}{}60{}", c, c, c);
        let row: Vec<String> = ["T", "A", "1", "2", "3", "4", "5", "6", padded.as_str()]
            .iter()
            .map(|s| s.to_string())
            .collect();
        let s = song_from_row(&row, false).expect("a song");
        assert_eq!(s.high_note_total_ms, 60, "{:?}", c);
    }
    for c in ['\u{200b}', '\u{feff}', '_', '\u{0}', '\u{1f}'] {
        let padded = format!("{}60", c);
        let row: Vec<String> = ["T", "A", "1", "2", "3", "4", "5", "6", padded.as_str()]
            .iter()
            .map(|s| s.to_string())
            .collect();
        assert!(song_from_row(&row, false).is_none(), "{:?}", c);
    }
    let row: Vec<String> = [" \u{3000}Name of\u{a0}song \n", "", "1", "2", "3", "4", "5", "6", "7"]
        .iter()
        .map(|s| s.to_string())
        .collect();
    let s = song_from_row(&row, false).expect("a song");
    assert_eq!(s.title, "Name of\u{a0}song");
    assert_eq!(s.artist, "");
}
