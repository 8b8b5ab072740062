use ferratone::offline::render_mono;
use ferratone::source::Source;
use ferratone::source::StereoOut;
use ferratone::square::Square;

const HI: u32 = 0x3F80_0000; // the 32-bit word of plus one
const LO: u32 = 0xBF80_0000; // the 32-bit word of minus one

fn words(source: &mut Square, offset: u64, n: usize) -> Vec<u32> {
    let mut buf: Vec<u32> = vec![0; n];
    source.populate_mono(offset, 48000, &mut buf);
    buf
}

#[test]
fn square_waveform_alternates_every_half_period() {
    let mut sq = Square::new(HI, LO, 2);
    let out = words(&mut sq, 0, 8);
    assert_eq!(out, vec![HI, HI, LO, LO, HI, HI, LO, LO]);
}

#[test]
fn phase_continues_across_contiguous_calls() {
    let mut split = Square::new(HI, LO, 3);
    let mut first = words(&mut split, 0, 4);
    let second = words(&mut split, 4, 9);
    first.extend_from_slice(&second);

    let mut whole = Square::new(HI, LO, 3);
    let expected = words(&mut whole, 0, 13);
    assert_eq!(first, expected);
}

#[test]
fn chunking_is_invisible_in_any_partition() {
    let partitions: [&[usize]; 4] = [&[13], &[1, 12], &[6, 6, 1], &[4, 4, 4, 1]];
    let mut whole = Square::new(7, 3, 2);
    let expected = words(&mut whole, 0, 13);
    for parts in partitions {
        let mut sq = Square::new(7, 3, 2);
        let mut got: Vec<u32> = Vec::new();
        let mut offset: u64 = 0;
        for &part in parts {
            let chunk = words(&mut sq, offset, part);
            got.extend_from_slice(&chunk);
            offset += part as u64;
        }
        assert_eq!(got, expected);
    }
}

#[test]
fn stereo_duplicates_mono_into_both_channels() {
    let mut mono_sq = Square::new(HI, LO, 2);
    let expected = words(&mut mono_sq, 0, 6);

    let mut stereo_sq = Square::new(HI, LO, 2);
    let mut buf: Vec<StereoOut> = Vec::new();
    for _ in 0..6 {
        buf.push(StereoOut { left: 0, right: 0 });
    }
    stereo_sq.populate_stereo(0, 48000, &mut buf);
    for (frame, word) in buf.iter().zip(expected.iter()) {
        assert_eq!(frame.left, *word);
        assert_eq!(frame.right, *word);
    }
}

#[test]
fn degenerate_half_period_holds_hi_forever() {
    let mut sq = Square::new(9, 4, 0);
    let out = words(&mut sq, 0, 5);
    assert_eq!(out, vec![9, 9, 9, 9, 9]);
}

#[test]
fn empty_buffer_does_no_work() {
    let mut sq = Square::new(HI, LO, 2);
    let out = words(&mut sq, 0, 0);
    assert!(out.is_empty());
    // the next call still starts at phase zero
    assert_eq!(words(&mut sq, 0, 2), vec![HI, HI]);
}

#[test]
fn render_mono_matches_one_populate_call_across_chunks() {
    // 5000 samples forces three chunks (2048 + 2048 + 904)
    let mut chunked = Square::new(HI, LO, 700);
    let rendered = render_mono(&mut chunked, 0, 48000, 5000);

    let mut whole = Square::new(HI, LO, 700);
    let expected = words(&mut whole, 0, 5000);
    assert_eq!(rendered, expected);
}
