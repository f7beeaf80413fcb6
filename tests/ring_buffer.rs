use stream_pipeline::feeder::Feeder;
use stream_pipeline::ring::ring;
use stream_pipeline::sink::render;
use stream_pipeline::stream::{ring_capacity, StreamDescriptor, DEFAULT_LATENCY_MS};

#[test]
fn reads_come_back_in_write_order() {
    let (mut writer, mut reader) = ring::<f32>(16).unwrap();
    assert_eq!(writer.write_blocking(&[1.0, 2.0, 3.0]), Some(3));
    assert_eq!(writer.write_blocking(&[4.0, 5.0]), Some(2));
    let mut dest = [9.0f32; 4];
    assert_eq!(reader.read_nonblocking(&mut dest), 4);
    assert_eq!(dest, [1.0, 2.0, 3.0, 4.0]);
    let mut rest = [9.0f32; 4];
    assert_eq!(reader.read_nonblocking(&mut rest), 1);
    assert_eq!(rest, [5.0, 9.0, 9.0, 9.0]);
}

#[test]
fn ring_never_holds_more_than_its_capacity() {
    let (mut writer, mut reader) = ring::<i32>(4).unwrap();
    let batch: Vec<i32> = (0..10).collect();
    assert_eq!(writer.write_blocking(&batch), Some(4));
    let mut dest = [0i32; 10];
    assert_eq!(reader.read_nonblocking(&mut dest), 4);
    assert_eq!(&dest[..4], &[0, 1, 2, 3]);
    assert_eq!(writer.write_blocking(&batch[4..]), Some(4));
}

#[test]
fn empty_write_is_none() {
    let (mut writer, _reader) = ring::<f32>(4).unwrap();
    assert_eq!(writer.write_blocking(&[]), None);
}

#[test]
fn read_of_empty_ring_is_zero() {
    let (_writer, mut reader) = ring::<f32>(4).unwrap();
    let mut dest = [7.0f32; 3];
    assert_eq!(reader.read_nonblocking(&mut dest), 0);
    assert_eq!(dest, [7.0, 7.0, 7.0]);
}

#[test]
fn render_fills_underrun_with_silence() {
    let (mut writer, mut reader) = ring::<f32>(8).unwrap();
    assert_eq!(writer.write_blocking(&[0.5, -0.5, 0.25]), Some(3));
    let mut dest = [9.0f32; 6];
    assert_eq!(render(&mut reader, &mut dest, 0.0), 3);
    assert_eq!(dest, [0.5, -0.5, 0.25, 0.0, 0.0, 0.0]);
    let mut again = [9.0f32; 2];
    assert_eq!(render(&mut reader, &mut again, 0.0), 0);
    assert_eq!(again, [0.0, 0.0]);
}

#[test]
fn feeder_submits_a_frame_whole() {
    let (mut writer, mut reader) = ring::<f32>(8).unwrap();
    let mut feeder = Feeder::new(writer);
    let planes = vec![vec![1.0f32, 2.0], vec![3.0f32, 4.0]];
    feeder.load(&planes, 2);
    assert_eq!(feeder.pending(), 4);
    assert!(feeder.submit());
    assert_eq!(feeder.pending(), 0);
    let mut dest = [0.0f32; 4];
    assert_eq!(reader.read_nonblocking(&mut dest), 4);
    assert_eq!(dest, [1.0, 3.0, 2.0, 4.0]);
}

#[test]
fn feeder_waits_for_space_in_parts() {
    let (mut writer, mut reader) = ring::<i32>(3).unwrap();
    let mut feeder = Feeder::new(writer);
    let planes = vec![vec![1, 2, 3, 4, 5]];
    feeder.load(&planes, 5);
    assert!(!feeder.submit());
    assert_eq!(feeder.pending(), 2);
    let mut dest = [0i32; 3];
    assert_eq!(reader.read_nonblocking(&mut dest), 3);
    assert_eq!(dest, [1, 2, 3]);
    assert!(feeder.submit());
    assert_eq!(reader.read_nonblocking(&mut dest), 2);
    assert_eq!(&dest[..2], &[4, 5]);
}

#[test]
fn zero_frame_changes_nothing() {
    let (mut writer, mut reader) = ring::<f32>(4).unwrap();
    let mut feeder = Feeder::new(writer);
    let planes = vec![Vec::<f32>::new()];
    feeder.load(&planes, 0);
    assert_eq!(feeder.pending(), 0);
    assert!(feeder.submit());
    let mut dest = [1.0f32; 2];
    assert_eq!(render(&mut reader, &mut dest, 0.0), 0);
    assert_eq!(dest, [0.0, 0.0]);
}

#[test]
fn end_to_end_ten_frames_mono() {
    let capacity = ring_capacity(StreamDescriptor { rate: 1000, channels: 1 }, DEFAULT_LATENCY_MS)
        .unwrap();
    assert_eq!(capacity, 200);
    let (mut writer, mut reader) = ring::<f32>(capacity).unwrap();
    let mut feeder = Feeder::new(writer);
    let mut heard: Vec<f32> = Vec::new();
    let mut dest = [0.0f32; 50];

    // Before the first write the device hears only silence.
    assert_eq!(render(&mut reader, &mut dest, 0.0), 0);
    assert!(dest.iter().all(|s| *s == 0.0));

    for frame in 0..10 {
        let plane: Vec<f32> = (0..100).map(|i| (frame * 100 + i) as f32).collect();
        feeder.load(&vec![plane], 100);
        assert!(feeder.submit());
        for _ in 0..2 {
            let n = render(&mut reader, &mut dest, 0.0);
            assert_eq!(n, 50);
            heard.extend_from_slice(&dest[..n]);
        }
    }
    // Drained: only silence from here on.
    assert_eq!(render(&mut reader, &mut dest, 0.0), 0);
    assert!(dest.iter().all(|s| *s == 0.0));

    assert_eq!(heard.len(), 1000);
    for (i, s) in heard.iter().enumerate() {
        assert_eq!(*s, i as f32);
    }
}

#[test]
fn ring_refuses_impossible_capacities() {
    assert!(ring::<f32>(0).is_none());
    assert!(ring::<f32>(usize::MAX).is_none());
    assert!(ring::<f32>(usize::MAX / 2).is_none());
    assert!(ring::<f32>(1).is_some());
}
