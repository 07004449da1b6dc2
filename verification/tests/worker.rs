use bevy_h264::color::YuvPlanes;
use bevy_h264::segment::H264VideoLoader;
use bevy_h264::worker::{
    step_after, DecodeWorker, DecodeWorkerError, Decoded, DecoderMessage, WorkerStep,
};
use openh264::decoder::Decoder;
use openh264::encoder::{Encoder, EncoderConfig};
use openh264::formats::YUVBuffer;

fn worker() -> DecodeWorker {
    match DecodeWorker::new() {
        Ok(worker) => worker,
        Err(error) => panic!("no decoder: {:?}", error),
    }
}

/// One encoded gray picture of 64 x 48 pixels, as a byte stream.
fn encoded_gray_picture() -> Vec<u8> {
    let rgb = vec![128u8; 64 * 48 * 3];
    let picture = YUVBuffer::with_rgb(64, 48, &rgb);
    let mut encoder = match Encoder::with_config(EncoderConfig::new(64, 48)) {
        Ok(encoder) => encoder,
        Err(error) => panic!("no encoder: {}", error),
    };
    match encoder.encode(&picture) {
        Ok(stream) => stream.to_vec(),
        Err(error) => panic!("not encoded: {}", error),
    }
}

fn units_of(stream: Vec<u8>) -> Vec<Vec<u8>> {
    let video = match H264VideoLoader.load(Ok(stream)) {
        Ok(video) => video,
        Err(_) => panic!("a stream that was read must load"),
    };
    (0..video.len()).map(|i| video.unit(i).unwrap().clone()).collect()
}

#[test]
fn stop_ends_the_worker() {
    let mut worker = worker();
    assert_eq!(worker.handle(DecoderMessage::Stop), WorkerStep::Exit);
}

#[test]
fn stop_ends_the_worker_after_any_submissions() {
    let mut worker = worker();
    for unit in [vec![], vec![0, 0, 1], vec![0, 0, 1, 0x65, 1, 2, 3], vec![7; 100]] {
        assert_ne!(worker.handle(DecoderMessage::Frame(unit)), WorkerStep::Exit);
    }
    assert_eq!(worker.handle(DecoderMessage::Stop), WorkerStep::Exit);
}

#[test]
fn unit_that_does_not_decode_gives_no_frame() {
    let mut worker = worker();
    let garbage = vec![0, 0, 1, 0x65, 0xff, 0xff, 0xff, 0xff, 0xff, 0xff];
    assert_eq!(worker.handle(DecoderMessage::Frame(garbage)), WorkerStep::NoFrame);
}

#[test]
fn encoded_picture_comes_back_as_one_frame() {
    let units = units_of(encoded_gray_picture());
    assert!(units.len() >= 3);
    let mut worker = worker();
    let mut frames = Vec::new();
    for unit in units {
        match worker.handle(DecoderMessage::Frame(unit)) {
            WorkerStep::Frame(frame) => frames.push(frame),
            WorkerStep::NoFrame => {}
            WorkerStep::Exit => panic!("only Stop ends the worker"),
        }
    }
    assert_eq!(frames.len(), 1);
    let frame = &frames[0];
    assert_eq!((frame.width, frame.height), (64, 48));
    assert_eq!(frame.buffer.len(), 64 * 48 * 4);
    for pixel in frame.buffer.chunks(4) {
        assert_eq!(pixel[3], 255);
        for channel in &pixel[..3] {
            assert!((120..=136).contains(channel));
        }
    }
}

#[test]
fn worker_goes_on_after_a_unit_that_does_not_decode() {
    let mut worker = worker();
    let garbage = vec![0, 0, 1, 0x65, 0xff, 0xff, 0xff, 0xff, 0xff, 0xff];
    assert_eq!(worker.handle(DecoderMessage::Frame(garbage)), WorkerStep::NoFrame);
    let mut frames = 0;
    for unit in units_of(encoded_gray_picture()) {
        if let WorkerStep::Frame(_) = worker.handle(DecoderMessage::Frame(unit)) {
            frames += 1;
        }
    }
    assert_eq!(frames, 1);
}

#[test]
fn frames_come_in_the_order_of_their_units() {
    let mut encoder = match Encoder::with_config(EncoderConfig::new(16, 16)) {
        Ok(encoder) => encoder,
        Err(error) => panic!("no encoder: {}", error),
    };
    let mut stream = Vec::new();
    for shade in [40u8, 120, 200] {
        let rgb = vec![shade; 16 * 16 * 3];
        match encoder.encode(&YUVBuffer::with_rgb(16, 16, &rgb)) {
            Ok(encoded) => encoded.write_vec(&mut stream),
            Err(error) => panic!("not encoded: {}", error),
        }
    }
    let mut worker = worker();
    let mut shades = Vec::new();
    for unit in units_of(stream) {
        if let WorkerStep::Frame(frame) = worker.handle(DecoderMessage::Frame(unit)) {
            shades.push(frame.buffer[0]);
        }
    }
    assert_eq!(shades.len(), 3);
    assert!(shades[0] < 80);
    assert!(shades[1] > 80 && shades[1] < 160);
    assert!(shades[2] > 160);
}

#[test]
fn picture_becomes_a_packed_frame() {
    let planes = YuvPlanes {
        y: vec![128, 128, 128, 128],
        u: vec![128],
        v: vec![128],
        stride_y: 2,
        stride_u: 1,
        stride_v: 1,
        width: 2,
        height: 2,
    };
    match step_after(Decoded::Picture(planes)) {
        WorkerStep::Frame(frame) => {
            assert_eq!((frame.width, frame.height), (2, 2));
            assert_eq!(frame.buffer, [128u8, 128, 128, 255].repeat(4));
        }
        other => panic!("no frame: {:?}", other),
    }
}

#[test]
fn picture_with_short_planes_gives_no_frame() {
    let planes = YuvPlanes {
        y: vec![128, 128, 128],
        u: vec![128],
        v: vec![128],
        stride_y: 2,
        stride_u: 1,
        stride_v: 1,
        width: 2,
        height: 2,
    };
    assert_eq!(step_after(Decoded::Picture(planes)), WorkerStep::NoFrame);
}

#[test]
fn no_picture_gives_no_frame() {
    assert_eq!(step_after(Decoded::Nothing), WorkerStep::NoFrame);
    assert_eq!(step_after(Decoded::Failed), WorkerStep::NoFrame);
}

#[test]
fn failed_setup_makes_no_worker() {
    let setup = Err(openh264::Error::msg("no decoder to be had"));
    match DecodeWorker::made_from(setup) {
        Err(DecodeWorkerError::Decoder(error)) => {
            assert!(error.to_string().contains("no decoder to be had"))
        }
        Ok(_) => panic!("a failed setup must make no worker"),
    }
}

#[test]
fn decoder_that_was_set_up_makes_a_worker() {
    let mut worker = match DecodeWorker::made_from(Decoder::new()) {
        Ok(worker) => worker,
        Err(error) => panic!("no decoder: {:?}", error),
    };
    let mut frames = 0;
    for unit in units_of(encoded_gray_picture()) {
        if let WorkerStep::Frame(_) = worker.handle(DecoderMessage::Frame(unit)) {
            frames += 1;
        }
    }
    assert_eq!(frames, 1);
    assert_eq!(worker.handle(DecoderMessage::Stop), WorkerStep::Exit);
}
