use lyrics_sync::lyrics::{Lyrics, Time, Word};
use lyrics_sync::search::find_lyric_line;

fn line(time: usize, words: &[&str]) -> Lyrics {
    Lyrics {
        time,
        words: words.iter().map(|w| Word { string: w.to_string() }).collect(),
    }
}

fn at(times: &[usize]) -> Vec<Lyrics> {
    times.iter().map(|&t| line(t, &[])).collect()
}

fn scan(lyrics: &[Lyrics], t: usize) -> Option<usize> {
    let mut found = None;
    for (i, l) in lyrics.iter().enumerate() {
        if l.time <= t {
            found = Some(i);
        }
    }
    found
}

#[test]
fn test_binary_search() {
    let mut time = Time { time: 10 };

    let mut lyrics: Vec<Lyrics> = Vec::new();
    for i in 0..=20 {
        lyrics.push(Lyrics {
            time: i,
            words: Vec::new(),
        })
    }

    println!("{:?}", lyrics);

    assert_eq!(find_lyric_line(&lyrics, time), Some(10));
    time = Time { time: 0 };
    assert_eq!(find_lyric_line(&lyrics, time), Some(0));
    time = Time { time: 21 };
    assert_eq!(find_lyric_line(&lyrics, time), Some(20));
    time = Time { time: 22 };
    assert_eq!(find_lyric_line(&lyrics, time), Some(20));
}

#[test]
fn search_empty_is_none() {
    assert_eq!(find_lyric_line(&Vec::new(), Time { time: 0 }), None);
    assert_eq!(find_lyric_line(&Vec::new(), Time { time: 100 }), None);
}

#[test]
fn search_single_line_edges() {
    let lyrics = at(&[7]);
    assert_eq!(find_lyric_line(&lyrics, Time { time: 7 }), Some(0));
    assert_eq!(find_lyric_line(&lyrics, Time { time: 6 }), None);
    assert_eq!(find_lyric_line(&lyrics, Time { time: 1000 }), Some(0));
}

#[test]
fn search_equal_times_take_the_last() {
    let lyrics = at(&[1, 5, 5, 5, 9]);
    assert_eq!(find_lyric_line(&lyrics, Time { time: 5 }), Some(3));
    assert_eq!(find_lyric_line(&lyrics, Time { time: 6 }), Some(3));
    assert_eq!(find_lyric_line(&lyrics, Time { time: 4 }), Some(0));
    assert_eq!(find_lyric_line(&lyrics, Time { time: 0 }), None);
}

#[test]
fn search_matches_linear_scan() {
    let mut seed: u64 = 12345;
    for _ in 0..200 {
        seed = seed.wrapping_mul(6364136223846793005).wrapping_add(1442695040888963407);
        let n = (seed >> 33) as usize % 30;
        let mut times = Vec::new();
        let mut t = 0usize;
        for _ in 0..n {
            seed = seed.wrapping_mul(6364136223846793005).wrapping_add(1442695040888963407);
            t += (seed >> 40) as usize % 4;
            times.push(t);
        }
        let lyrics = at(&times);
        for q in 0..(t + 3) {
            assert_eq!(find_lyric_line(&lyrics, Time { time: q }), scan(&lyrics, q));
        }
    }
}

#[test]
fn search_unsorted_gives_a_boundary() {
    let lyrics = at(&[9, 1, 8, 2]);
    let r = find_lyric_line(&lyrics, Time { time: 5 });
    match r {
        Some(i) => {
            assert!(lyrics[i].time <= 5);
            assert!(i + 1 == lyrics.len() || lyrics[i + 1].time > 5);
        }
        None => assert!(lyrics[0].time > 5),
    }
}

#[test]
fn line_text_joins_and_trims() {
    assert_eq!(line(0, &["hello", "world"]).to_line(), "hello world");
    assert_eq!(line(0, &[" a ", "b "]).to_line(), "a  b");
    assert_eq!(line(0, &["\tx", "", ""]).to_line(), "x");
    assert_eq!(line(0, &[]).to_line(), "");
    assert_eq!(line(0, &["  ", " "]).to_line(), "");
}
