use fls::source::{
    Endpoint, Fetch, ReadOutcome, Replay, Source, SourceOpts, IO_BUFFER_SIZE, READ_TIMEOUT_MS,
};
use std::io::{Cursor, Read, Seek, SeekFrom};

fn file_opts(path: &str, frame_size: usize) -> SourceOpts {
    SourceOpts { ip: [0, 0, 0, 0], port: 9293, file: Some(String::from(path)), frame_size }
}

/// Reads one frame from `input` the way a file source is read: exact reads,
/// and a seek to the start whenever the source asks for one.
fn fetch(source: &Source, input: &mut Cursor<Vec<u8>>, buf: &mut [u8]) -> Fetch {
    loop {
        let len = source.request(buf.len());
        let outcome = match input.read_exact(&mut buf[..len]) {
            Ok(()) => ReadOutcome::Filled(len),
            Err(e) if e.kind() == std::io::ErrorKind::UnexpectedEof => ReadOutcome::EndOfInput,
            Err(_) => ReadOutcome::Failed,
        };
        match source.get(outcome) {
            Fetch::Rewind => {
                input.seek(SeekFrom::Start(0)).unwrap();
            }
            other => return other,
        }
    }
}

fn fixture(frames: usize, frame_size: usize, tail: usize) -> Vec<u8> {
    let mut data = Vec::new();
    for frame in 0..frames {
        for offset in 0..frame_size {
            data.push((frame * 31 + offset * 7 + 1) as u8);
        }
    }
    for offset in 0..tail {
        data.push(200 + offset as u8);
    }
    data
}

#[test]
fn default_options() {
    let opts = SourceOpts::default();
    assert_eq!(opts.ip, [0, 0, 0, 0]);
    assert_eq!(opts.port, 9293);
    assert_eq!(opts.file, None);
    assert_eq!(opts.frame_size, 1400);
}

#[test]
fn constants_of_opening() {
    assert_eq!(IO_BUFFER_SIZE, 1 << 20);
    assert_eq!(READ_TIMEOUT_MS, 1000);
}

#[test]
fn new_selects_the_endpoint_without_a_file() {
    let opts = SourceOpts { ip: [127, 0, 0, 1], port: 1234, file: None, frame_size: 1400 };
    assert_eq!(
        Source::new(&opts),
        Source::Udp(Endpoint {
            ip: [127, 0, 0, 1],
            port: 1234,
            recv_buffer_size: 1048576,
            read_timeout_ms: 1000,
        })
    );
}

#[test]
fn new_selects_the_file_when_one_is_named() {
    let opts = file_opts("frames.bin", 1032);
    assert_eq!(
        Source::new(&opts),
        Source::File(Replay { path: String::from("frames.bin"), capacity: 1048576 }, 1032)
    );
}

#[test]
fn new_prefers_the_file_over_the_address() {
    let opts =
        SourceOpts { ip: [10, 0, 0, 2], port: 7, file: Some(String::from("x")), frame_size: 8 };
    assert!(matches!(Source::new(&opts), Source::File(_, 8)));
}

#[test]
fn file_source_decisions() {
    let source = Source::new(&file_opts("frames.bin", 1400));
    assert_eq!(source.get(ReadOutcome::Filled(1400)), Fetch::Frame(1400));
    assert_eq!(source.get(ReadOutcome::Filled(3)), Fetch::Frame(1400));
    assert_eq!(source.get(ReadOutcome::EndOfInput), Fetch::Rewind);
    assert_eq!(source.get(ReadOutcome::TimedOut), Fetch::Fatal);
    assert_eq!(source.get(ReadOutcome::Failed), Fetch::Fatal);
}

#[test]
fn datagram_source_decisions() {
    let source = Source::new(&SourceOpts::default());
    assert_eq!(source.get(ReadOutcome::Filled(1400)), Fetch::Frame(1400));
    assert_eq!(source.get(ReadOutcome::Filled(0)), Fetch::Frame(0));
    assert_eq!(source.get(ReadOutcome::TimedOut), Fetch::Idle);
    assert_eq!(source.get(ReadOutcome::EndOfInput), Fetch::Fatal);
    assert_eq!(source.get(ReadOutcome::Failed), Fetch::Fatal);
}

#[test]
fn request_and_fit() {
    let file = Source::new(&file_opts("frames.bin", 1400));
    assert!(file.fits(2048));
    assert!(file.fits(1400));
    assert!(!file.fits(1399));
    assert_eq!(file.request(2048), 1400);
    assert_eq!(file.request(10), 1400);
    let udp = Source::new(&SourceOpts::default());
    assert!(udp.fits(0));
    assert_eq!(udp.request(2048), 2048);
}

#[test]
fn file_replay_wraps_around() {
    let frame_size = 16;
    let frames = 3;
    let data = fixture(frames, frame_size, 0);
    let source = Source::new(&file_opts("fixture", frame_size));
    let mut input = Cursor::new(data.clone());
    let mut buf = vec![0u8; 2048];
    for read in 0..(5 * frames + 2) {
        assert_eq!(fetch(&source, &mut input, &mut buf), Fetch::Frame(frame_size));
        let at = (read % frames) * frame_size;
        assert_eq!(&buf[..frame_size], &data[at..at + frame_size]);
    }
}

#[test]
fn file_replay_yields_first_frame_again_after_all_frames() {
    let frame_size = 1400;
    let frames = 3;
    let data = fixture(frames, frame_size, 0);
    let source = Source::new(&file_opts("fixture", frame_size));
    let mut input = Cursor::new(data.clone());
    let mut buf = vec![0u8; 2048];
    let mut first = Vec::new();
    for read in 0..=frames {
        assert_eq!(fetch(&source, &mut input, &mut buf), Fetch::Frame(1400));
        if read == 0 {
            first = buf[..frame_size].to_vec();
        }
    }
    assert_eq!(first, data[..frame_size].to_vec());
    assert_eq!(&buf[..frame_size], &first[..]);
}

#[test]
fn file_replay_skips_a_partial_last_frame() {
    let frame_size = 10;
    let data = fixture(2, frame_size, 7);
    let source = Source::new(&file_opts("fixture", frame_size));
    let mut input = Cursor::new(data.clone());
    let mut buf = vec![0u8; 64];
    for read in 0..7 {
        assert_eq!(fetch(&source, &mut input, &mut buf), Fetch::Frame(frame_size));
        let at = (read % 2) * frame_size;
        assert_eq!(&buf[..frame_size], &data[at..at + frame_size]);
    }
}

#[test]
fn file_replay_of_a_single_frame() {
    let data = fixture(1, 4, 0);
    let source = Source::new(&file_opts("fixture", 4));
    let mut input = Cursor::new(data.clone());
    let mut buf = vec![0u8; 4];
    for _ in 0..4 {
        assert_eq!(fetch(&source, &mut input, &mut buf), Fetch::Frame(4));
        assert_eq!(&buf[..], &data[..]);
    }
}
