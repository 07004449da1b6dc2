use bevy_h264::segment::{H264VideoLoader, H264VideoLoaderError};

fn units_of(stream: &[u8]) -> Vec<Vec<u8>> {
    let video = match H264VideoLoader.load(Ok(stream.to_vec())) {
        Ok(video) => video,
        Err(_) => panic!("a stream that was read must load"),
    };
    let mut units = Vec::new();
    let mut index = 0;
    while let Some(unit) = video.unit(index) {
        units.push(unit.clone());
        index += 1;
    }
    assert_eq!(units.len(), video.len());
    units
}

#[test]
fn loader_takes_h264_files() {
    assert_eq!(H264VideoLoader.extensions().to_vec(), vec!["h264"]);
}

#[test]
fn empty_stream_has_no_units() {
    assert!(units_of(&[]).is_empty());
}

#[test]
fn stream_without_start_code_has_no_units() {
    assert!(units_of(&[2, 3]).is_empty());
    assert!(units_of(&[0, 0, 2, 0, 1]).is_empty());
}

#[test]
fn units_keep_their_start_code() {
    assert_eq!(units_of(&[0, 0, 1]), vec![vec![0, 0, 1]]);
    assert_eq!(units_of(&[0, 0, 1, 2]), vec![vec![0, 0, 1, 2]]);
    assert_eq!(
        units_of(&[0, 0, 1, 2, 0, 0, 1]),
        vec![vec![0, 0, 1, 2], vec![0, 0, 1]]
    );
}

#[test]
fn leading_bytes_are_skipped_and_extra_zeros_close_the_unit_before() {
    assert_eq!(
        units_of(&[0, 0, 0, 0, 0, 1, 2, 0, 0, 1]),
        vec![vec![0, 0, 1, 2], vec![0, 0, 1]]
    );
    assert_eq!(
        units_of(&[0, 0, 0, 0, 0, 1, 2, 0, 0]),
        vec![vec![0, 0, 1, 2, 0, 0]]
    );
    assert_eq!(
        units_of(&[9, 0, 0, 1, 7, 0, 0, 0, 1, 8]),
        vec![vec![0, 0, 1, 7, 0], vec![0, 0, 1, 8]]
    );
}

#[test]
fn well_framed_stream_round_trips() {
    let stream: Vec<u8> = vec![0, 0, 1, 0x67, 1, 2, 0, 0, 1, 0x68, 3, 0, 0, 1, 0x65, 4, 5, 6];
    let units = units_of(&stream);
    assert_eq!(units.len(), 3);
    assert_eq!(units.concat(), stream);
}

#[test]
fn read_error_is_handed_on() {
    let error = std::io::Error::new(std::io::ErrorKind::UnexpectedEof, "cut short");
    match H264VideoLoader.load(Err(error)) {
        Err(H264VideoLoaderError::Io(inner)) => {
            assert_eq!(inner.kind(), std::io::ErrorKind::UnexpectedEof)
        }
        Ok(_) => panic!("a failed read must not load"),
    }
}

/// The units as the start codes give them: from each `00 00 01` to the next,
/// the last one to the end.
fn units_by_start_codes(stream: &[u8]) -> Vec<Vec<u8>> {
    let starts: Vec<usize> =
        (0..stream.len()).filter(|&at| stream[at..].starts_with(&[0, 0, 1])).collect();
    let mut units = Vec::new();
    for (k, &start) in starts.iter().enumerate() {
        let end = if k + 1 < starts.len() { starts[k + 1] } else { stream.len() };
        units.push(stream[start..end].to_vec());
    }
    units
}

#[test]
fn units_follow_the_start_codes_on_many_streams() {
    let mut state: u64 = 0x2545_f491_4f6c_dd1d;
    let mut next = move || {
        state = state.wrapping_mul(6364136223846793005).wrapping_add(1442695040888963407);
        (state >> 33) as usize
    };
    let mut with_units = 0;
    for round in 0..4000 {
        let len = round % 48;
        let stream: Vec<u8> = (0..len).map(|_| [0u8, 0, 0, 1, 1, 2, 255][next() % 7]).collect();
        let units = units_of(&stream);
        assert_eq!(units, units_by_start_codes(&stream));
        if let Some(first) = stream.windows(3).position(|window| window == [0, 0, 1]) {
            assert_eq!(units.concat(), &stream[first..]);
            with_units += 1;
        } else {
            assert!(units.is_empty());
        }
        for unit in &units {
            assert!(unit.starts_with(&[0, 0, 1]));
            assert_eq!(unit.windows(3).filter(|window| *window == [0, 0, 1]).count(), 1);
        }
    }
    assert!(with_units > 1000);
}
