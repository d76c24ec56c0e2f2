use bytes::Bytes;
use video_compositor::pipeline::structs::AvCodecId;
use video_compositor::pipeline::structs::AvPacket;
use video_compositor::pipeline::structs::ChunkFromFfmpegError;
use video_compositor::pipeline::structs::Codec;
use video_compositor::pipeline::structs::CodecFromFfmpegError;
use video_compositor::pipeline::structs::EncodedChunk;
use video_compositor::pipeline::structs::EncodedChunkKind;

const VIDEO: EncodedChunkKind = EncodedChunkKind::Video(Codec::H264);

#[test]
fn packet_without_data_gives_no_chunk() {
    let packet = AvPacket { data: None, pts: Some(10), dts: Some(9) };
    match EncodedChunk::from_av_packet(&packet, VIDEO) {
        Err(error) => assert_eq!(error, ChunkFromFfmpegError::NoData),
        Ok(_) => panic!("a packet without data became a chunk"),
    }
}

#[test]
fn packet_without_pts_gives_no_chunk() {
    let packet = AvPacket { data: Some(vec![1, 2, 3]), pts: None, dts: Some(9) };
    match EncodedChunk::from_av_packet(&packet, VIDEO) {
        Err(error) => assert_eq!(error, ChunkFromFfmpegError::NoPts),
        Ok(_) => panic!("a packet without pts became a chunk"),
    }
}

#[test]
fn packet_without_data_and_pts_reports_the_data() {
    let packet = AvPacket { data: None, pts: None, dts: None };
    match EncodedChunk::from_av_packet(&packet, VIDEO) {
        Err(error) => assert_eq!(error, ChunkFromFfmpegError::NoData),
        Ok(_) => panic!("an empty packet became a chunk"),
    }
}

#[test]
fn packet_becomes_a_chunk() {
    let packet = AvPacket { data: Some(vec![0, 0, 0, 1, 0x67, 0x42]), pts: Some(9000), dts: Some(6000) };
    let chunk = EncodedChunk::from_av_packet(&packet, VIDEO).unwrap();
    assert_eq!(chunk.data, Bytes::from_static(&[0, 0, 0, 1, 0x67, 0x42]));
    assert_eq!(chunk.to_vec(), vec![0, 0, 0, 1, 0x67, 0x42]);
    assert_eq!(chunk.len(), 6);
    assert_eq!(chunk.pts, 9000);
    assert_eq!(chunk.dts, Some(6000));
    assert_eq!(chunk.kind, VIDEO);
    assert!(chunk.check_sound());
}

#[test]
fn chunk_keeps_negative_times_and_missing_dts() {
    let packet = AvPacket { data: Some(vec![9]), pts: Some(-5), dts: None };
    let chunk = EncodedChunk::from_av_packet(&packet, VIDEO).unwrap();
    assert_eq!(chunk.pts, -5);
    assert_eq!(chunk.dts, None);
    assert!(chunk.check_sound());
}

#[test]
fn empty_payload_gives_no_chunk() {
    let packet = AvPacket { data: Some(vec![]), pts: Some(1), dts: None };
    match EncodedChunk::from_av_packet(&packet, VIDEO) {
        Err(error) => assert_eq!(error, ChunkFromFfmpegError::NoData),
        Ok(_) => panic!("an empty payload became a chunk"),
    }
    // The payload is looked at before the presentation time.
    let packet = AvPacket { data: Some(vec![]), pts: None, dts: None };
    match EncodedChunk::from_av_packet(&packet, VIDEO) {
        Err(error) => assert_eq!(error, ChunkFromFfmpegError::NoData),
        Ok(_) => panic!("an empty payload became a chunk"),
    }
}

#[test]
fn packet_decoded_after_it_is_shown_gives_no_chunk() {
    let packet = AvPacket { data: Some(vec![1]), pts: Some(10), dts: Some(11) };
    match EncodedChunk::from_av_packet(&packet, VIDEO) {
        Err(error) => assert_eq!(error, ChunkFromFfmpegError::DtsAfterPts),
        Ok(_) => panic!("a packet decoded after it is shown became a chunk"),
    }
    // The presentation time is looked at before the decoding time.
    let packet = AvPacket { data: Some(vec![1]), pts: None, dts: Some(11) };
    match EncodedChunk::from_av_packet(&packet, VIDEO) {
        Err(error) => assert_eq!(error, ChunkFromFfmpegError::NoPts),
        Ok(_) => panic!("a packet without pts became a chunk"),
    }
    let packet = AvPacket { data: Some(vec![1]), pts: Some(10), dts: Some(10) };
    let chunk = EncodedChunk::from_av_packet(&packet, VIDEO).unwrap();
    assert_eq!(chunk.dts, Some(10));
    assert!(chunk.check_sound());
    let packet = AvPacket { data: Some(vec![1]), pts: Some(i64::MIN), dts: Some(i64::MIN) };
    assert!(EncodedChunk::from_av_packet(&packet, VIDEO).unwrap().check_sound());
}

#[test]
fn chunk_made_by_hand_is_checked() {
    let empty = EncodedChunk { data: Bytes::new(), pts: 10, dts: None, kind: VIDEO };
    assert!(!empty.check_sound());
    let late = EncodedChunk { data: Bytes::from_static(&[1]), pts: 10, dts: Some(11), kind: VIDEO };
    assert!(!late.check_sound());
    let on_time = EncodedChunk { data: Bytes::from_static(&[1]), pts: 10, dts: Some(10), kind: VIDEO };
    assert!(on_time.check_sound());
}

#[test]
fn chunk_errors_say_what_is_missing() {
    assert_eq!(ChunkFromFfmpegError::NoData.message(), "No data");
    assert_eq!(ChunkFromFfmpegError::NoPts.message(), "No pts");
    assert_eq!(ChunkFromFfmpegError::DtsAfterPts.message(), "Dts after pts");
}

#[test]
fn h264_is_the_codec_carried() {
    assert!(matches!(Codec::try_from(AvCodecId::H264), Ok(Codec::H264)));
}

#[test]
fn other_codecs_are_refused_by_name() {
    match Codec::try_from(AvCodecId::Other("VP9".to_string())) {
        Err(CodecFromFfmpegError::UnsupportedCodec(name)) => assert_eq!(name, "VP9"),
        Ok(_) => panic!("VP9 was taken for H264"),
    }
    let error = CodecFromFfmpegError::UnsupportedCodec("VP9".to_string());
    assert_eq!(error.message(), "Unsupported codec VP9");
}
