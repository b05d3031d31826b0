use pathland::audio::Playback;
use pathland::audio::Span;

/// Fills a buffer sample by sample, moving the clock before each read, and
/// stops at the first place where the music has ended.
fn fill_by_hand(clock: &mut usize, music: &[i32], output: &mut [i32]) {
    for sample in output.iter_mut() {
        *clock += 1;
        if *clock >= music.len() {
            *sample = 0;
            return;
        }
        *sample = music[*clock];
    }
}

fn fill_by_span(playback: &mut Playback, music: &[i32], output: &mut [i32]) {
    let span: Span = playback.advance(music.len(), output.len());
    for i in 0..span.count {
        output[i] = music[span.first + i];
    }
    if span.silence {
        output[span.count] = 0;
    }
}

#[test]
fn playback_starts_at_zero() {
    assert_eq!(Playback::new().clock(), 0);
}

#[test]
fn spans_at_known_places() {
    let mut p: Playback = Playback::new();
    assert_eq!(p.advance(10, 4), Span { first: 1, count: 4, silence: false });
    assert_eq!(p.clock(), 4);
    assert_eq!(p.advance(10, 4), Span { first: 5, count: 4, silence: false });
    assert_eq!(p.clock(), 8);
    assert_eq!(p.advance(10, 4), Span { first: 9, count: 1, silence: true });
    assert_eq!(p.clock(), 10);
    assert_eq!(p.advance(10, 4), Span { first: 11, count: 0, silence: true });
    assert_eq!(p.clock(), 11);
    assert_eq!(p.advance(10, 0), Span { first: 12, count: 0, silence: false });
    assert_eq!(p.clock(), 11);
}

#[test]
fn empty_music_is_silence_at_once() {
    let mut p: Playback = Playback::new();
    assert_eq!(p.advance(0, 8), Span { first: 1, count: 0, silence: true });
    assert_eq!(p.clock(), 1);
}

#[test]
fn spans_fill_as_the_sample_loop_does() {
    for music_len in 0..12usize {
        let music: Vec<i32> = (0..music_len as i32).map(|i| 100 + i).collect();
        for output_len in 0..7usize {
            let mut clock: usize = 0;
            let mut playback: Playback = Playback::new();
            for _ in 0..6 {
                let mut by_hand: Vec<i32> = vec![-1; output_len];
                let mut by_span: Vec<i32> = vec![-1; output_len];
                fill_by_hand(&mut clock, &music, &mut by_hand);
                fill_by_span(&mut playback, &music, &mut by_span);
                assert_eq!(by_hand, by_span);
                assert_eq!(clock, playback.clock());
            }
        }
    }
}
