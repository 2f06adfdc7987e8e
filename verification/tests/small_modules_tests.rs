use bvparty::assets::{dance_file, DanceFile, Take, DANCE_FRAMES};
use bvparty::midi::{MidiError, MidiHeader};
use bvparty::spline_curves::{
    bezier_pick, bezier_segments, shared_end_pick, CurveKind, SplineError, SplinePick,
};

#[test]
fn midi_header_is_read_big_endian() {
    let bytes = [0x4d, 0x54, 0x68, 0x64, 0, 0, 0, 6, 0, 1, 0, 0x11, 0x01, 0xe0, 0xaa];
    let (header, division) = MidiHeader::parse(&bytes).unwrap();
    assert_eq!(
        header,
        MidiHeader { mthd: 0x4d54_6864, header_length: 6, format: 1, n: 17 }
    );
    assert_eq!(division, 480);
}

#[test]
fn midi_numbers_are_signed() {
    let bytes = [0x4d, 0x54, 0x68, 0x64, 0, 0, 0, 6, 0xff, 0xff, 0x80, 0, 0xe7, 0x28];
    let (header, division) = MidiHeader::parse(&bytes).unwrap();
    assert_eq!(header.format, -1);
    assert_eq!(header.n, i16::MIN);
    assert_eq!(division, -6360);
}

#[test]
fn midi_wants_its_magic_number() {
    let riff = [0x52, 0x49, 0x46, 0x46, 0, 0, 0, 6, 0, 1, 0, 1, 0, 96];
    assert_eq!(MidiHeader::parse(&riff).unwrap_err(), MidiError::NotMidi);
    let little_endian = [0x64, 0x68, 0x54, 0x4d, 0, 0, 0, 6, 0, 1, 0, 1, 0, 96];
    assert_eq!(MidiHeader::parse(&little_endian).unwrap_err(), MidiError::NotMidi);
    let negative = [0xcd, 0x54, 0x68, 0x64];
    assert_eq!(MidiHeader::parse(&negative).unwrap_err(), MidiError::NotMidi);
}

#[test]
fn midi_header_declares_six_bytes() {
    let seven = [0x4d, 0x54, 0x68, 0x64, 0, 0, 0, 7, 0, 1, 0, 1, 0, 96];
    assert_eq!(MidiHeader::parse(&seven).unwrap_err(), MidiError::BadHeaderLength);
    let swapped = [0x4d, 0x54, 0x68, 0x64, 6, 0, 0, 0, 0, 1, 0, 1, 0, 96];
    assert_eq!(MidiHeader::parse(&swapped).unwrap_err(), MidiError::BadHeaderLength);
}

#[test]
fn midi_header_must_be_complete() {
    let whole = [0x4d, 0x54, 0x68, 0x64, 0, 0, 0, 6, 0, 1, 0, 1, 0, 96];
    assert!(MidiHeader::parse(&whole).is_ok());
    for len in [0, 1, 3, 4, 7, 8, 13] {
        assert_eq!(MidiHeader::parse(&whole[..len]).unwrap_err(), MidiError::Truncated);
    }
    // what is wrong is reported as far as the bytes reach
    assert_eq!(MidiHeader::parse(&[0x4d, 0x54, 0x68, 0x65]).unwrap_err(), MidiError::NotMidi);
    let short_and_odd = [0x4d, 0x54, 0x68, 0x64, 0, 0, 0, 5];
    assert_eq!(MidiHeader::parse(&short_and_odd).unwrap_err(), MidiError::BadHeaderLength);
}

#[test]
fn animation_is_two_takes_back_to_back() {
    assert_eq!(DANCE_FRAMES, 88);
    assert_eq!(dance_file(0), Some(DanceFile { take: Take::First, number: 334 }));
    assert_eq!(dance_file(36), Some(DanceFile { take: Take::First, number: 370 }));
    assert_eq!(dance_file(37), Some(DanceFile { take: Take::Second, number: 157 }));
    assert_eq!(dance_file(87), Some(DanceFile { take: Take::Second, number: 207 }));
    assert_eq!(dance_file(88), None);
    assert_eq!(dance_file(usize::MAX), None);
}

#[test]
fn curve_bases_are_the_textbook_ones() {
    let rows = |kind: CurveKind| -> Vec<Vec<i8>> {
        (0..4).map(|r| (0..4).map(|c| kind.coefficient(r, c)).collect()).collect()
    };
    assert_eq!(
        rows(CurveKind::Bezier),
        vec![vec![1, 0, 0, 0], vec![-3, 3, 0, 0], vec![3, -6, 3, 0], vec![-1, 3, -3, 1]]
    );
    assert_eq!(
        rows(CurveKind::CatmullRom),
        vec![vec![0, 2, 0, 0], vec![-1, 0, 1, 0], vec![2, -5, 4, -1], vec![-1, 3, -3, 1]]
    );
    assert_eq!(
        rows(CurveKind::BSpline),
        vec![vec![1, 4, 1, 0], vec![-3, 0, 3, 0], vec![3, -6, 3, 0], vec![-1, 3, -3, 1]]
    );
    assert_eq!(
        rows(CurveKind::Hermite),
        vec![vec![1, 0, 0, 0], vec![0, 1, 0, 0], vec![-3, -2, 3, -1], vec![2, 1, -2, 1]]
    );
    assert_eq!(CurveKind::Bezier.divisor(), 1);
    assert_eq!(CurveKind::CatmullRom.divisor(), 2);
    assert_eq!(CurveKind::BSpline.divisor(), 6);
    assert_eq!(CurveKind::Hermite.divisor(), 1);
    assert_eq!(CurveKind::Bezier.coefficient(4, 0), 0);
    assert_eq!(CurveKind::Bezier.coefficient(0, 4), 0);
}

#[test]
fn curve_weights_add_up_to_one() {
    for kind in [CurveKind::Bezier, CurveKind::CatmullRom, CurveKind::BSpline] {
        for t in -3i64..=3 {
            let mut sum = 0;
            for col in 0..4 {
                for row in 0..4u32 {
                    sum += t.pow(row) * kind.coefficient(row as usize, col) as i64;
                }
            }
            assert_eq!(sum, kind.divisor() as i64);
        }
    }
}

#[test]
fn spline_of_whole_segments() {
    assert_eq!(bezier_segments(0), Ok(0));
    assert_eq!(bezier_segments(8), Ok(2));
    assert_eq!(bezier_segments(5), Err(SplineError::NotMultipleOfFour));
    assert_eq!(bezier_pick(8, 0), Some(SplinePick::Segment { start: 0 }));
    assert_eq!(bezier_pick(8, 1), Some(SplinePick::Segment { start: 4 }));
    assert_eq!(bezier_pick(8, 2), Some(SplinePick::Rest { point: 7 }));
    assert_eq!(bezier_pick(7, 1), Some(SplinePick::Rest { point: 6 }));
    assert_eq!(bezier_pick(3, 0), Some(SplinePick::Rest { point: 2 }));
    assert_eq!(bezier_pick(8, usize::MAX), Some(SplinePick::Rest { point: 7 }));
    assert_eq!(bezier_pick(0, 0), None);
}

#[test]
fn spline_with_shared_end_points() {
    assert_eq!(shared_end_pick(4, 0), Some(0));
    assert_eq!(shared_end_pick(7, 1), Some(3));
    assert_eq!(shared_end_pick(6, 1), None);
    assert_eq!(shared_end_pick(11, 2), Some(7));
    assert_eq!(shared_end_pick(10, 2), None);
    assert_eq!(shared_end_pick(3, 0), None);
    assert_eq!(shared_end_pick(100, usize::MAX), None);
}
