use std::cell::Cell;
use std::rc::Rc;

use opus_jni::codec::{Bitrate, Channels};
use opus_jni::decoder::{
    create_decoder, decoder_close, encoded_or_empty, DecoderContainer, MAX_BUFFER_LEN,
};
use opus_jni::encoder::{bitrate_report, create_encoder, encoder_close, EncoderContainer};
use opus_jni::registry::{Registry, NO_HANDLE};

struct Engine {
    drops: Rc<Cell<u32>>,
}

impl Drop for Engine {
    fn drop(&mut self) {
        self.drops.set(self.drops.get() + 1);
    }
}

fn decoder(channels: Channels, frame_size: i32) -> DecoderContainer<()> {
    DecoderContainer { decoder: (), channels, frame_size }
}

fn encoder(channels: Channels, mtu_size: i32) -> EncoderContainer<()> {
    EncoderContainer { encoder: (), channels, mtu_size }
}

#[test]
fn decoder_capacity_is_frame_size_times_channels() {
    assert_eq!(decoder(Channels::Stereo, 960).capacity(), 1920);
    assert_eq!(decoder(Channels::Mono, 480).capacity(), 480);
    assert_eq!(decoder(Channels::Mono, 0).capacity(), 0);
    assert_eq!(decoder(Channels::Stereo, -5).capacity(), 0);
    assert_eq!(decoder(Channels::Stereo, i32::MAX).capacity(), MAX_BUFFER_LEN);
    assert_eq!(decoder(Channels::Mono, i32::MAX).capacity(), MAX_BUFFER_LEN);
    let buffer = decoder(Channels::Stereo, 960).output_buffer();
    assert_eq!(buffer.len(), 1920);
    assert!(buffer.iter().all(|s| *s == 0));
}

#[test]
fn decoded_output_is_truncated_to_what_the_engine_produced() {
    let d = decoder(Channels::Stereo, 960);
    let mut buffer = d.output_buffer();
    for (i, s) in buffer.iter_mut().enumerate() {
        *s = i as i16;
    }
    let out = d.finish_decode(buffer, Ok(120)).ok().unwrap();
    assert_eq!(out.len(), 240);
    assert_eq!(out[239], 239);
    assert_eq!(d.decoded_len(960), 1920);
    assert_eq!(d.decoded_len(0), 0);
    assert_eq!(d.decoded_len(5000), 1920);
    assert_eq!(d.decoded_len(usize::MAX), 1920);
}

#[test]
fn decode_fault_becomes_codec_error() {
    let d = decoder(Channels::Mono, 480);
    match d.finish_decode(d.output_buffer(), Err("opus_decode: corrupted stream".to_string())) {
        Ok(_) => panic!("fault was lost"),
        Err(e) => {
            assert_eq!(e.class(), "com/plasmoverse/opus/OpusException");
            assert_eq!(e.message(), "Failed to decode audio: opus_decode: corrupted stream");
        }
    }
}

#[test]
fn missing_packet_decodes_as_concealment() {
    let packet = encoded_or_empty(None);
    assert!(packet.is_empty());
    assert_eq!(encoded_or_empty(Some(vec![1, 2, 3])), vec![1, 2, 3]);
    assert!(encoded_or_empty(Some(Vec::new())).is_empty());
    let d = decoder(Channels::Stereo, 960);
    let out = d.finish_decode(d.output_buffer(), Ok(960)).ok().unwrap();
    assert!(out.len() <= 960 * 2);
    assert_eq!(out.len(), 1920);
}

#[test]
fn created_decoder_gets_a_live_handle() {
    let drops = Rc::new(Cell::new(0));
    let mut reg = Registry::new();
    let h = create_decoder(&mut reg, Ok(Engine { drops: drops.clone() }), 1, 960).ok().unwrap();
    assert_ne!(h, NO_HANDLE);
    let container = reg.resolve(h).ok().unwrap();
    assert_eq!(container.channels, Channels::Stereo);
    assert_eq!(container.frame_size, 960);
    assert_eq!(decoder_close(&mut reg, h).ok(), Some(NO_HANDLE));
    assert_eq!(drops.get(), 1);
    match decoder_close(&mut reg, h) {
        Ok(_) => panic!("second close succeeded"),
        Err(e) => assert_eq!(e.class(), "java/lang/IllegalStateException"),
    }
    assert_eq!(drops.get(), 1);
    assert!(reg.resolve(h).is_err());
}

#[test]
fn rejected_decoder_gets_no_handle() {
    let mut reg: Registry<DecoderContainer<Engine>> = Registry::new();
    match create_decoder(&mut reg, Err("opus_decoder_create: invalid argument".to_string()), 0, 960) {
        Ok(_) => panic!("rejected engine was registered"),
        Err(e) => {
            assert_eq!(e.class(), "com/plasmoverse/opus/OpusException");
            assert_eq!(e.message(), "Failed to create decoder: opus_decoder_create: invalid argument");
        }
    }
    assert!(reg.resolve(1).is_err());
}

#[test]
fn encoder_packet_budget_is_the_mtu() {
    assert_eq!(encoder(Channels::Stereo, 4000).max_packet_size(), 4000);
    assert_eq!(encoder(Channels::Mono, 0).max_packet_size(), 0);
    assert_eq!(encoder(Channels::Mono, -1).max_packet_size(), 0);
}

#[test]
fn encoded_packet_within_mtu_is_passed_on() {
    let e = encoder(Channels::Stereo, 4000);
    assert_eq!(e.finish_encode(Ok(vec![7u8; 3])).ok(), Some(vec![7u8; 3]));
    assert_eq!(e.finish_encode(Ok(vec![1u8; 4000])).ok().map(|p| p.len()), Some(4000));
    assert_eq!(e.finish_encode(Ok(Vec::new())).ok(), Some(Vec::new()));
}

#[test]
fn encoded_packet_over_mtu_is_refused() {
    let e = encoder(Channels::Mono, 10);
    match e.finish_encode(Ok(vec![0u8; 11])) {
        Ok(_) => panic!("oversized packet passed"),
        Err(x) => assert_eq!(x.class(), "com/plasmoverse/opus/OpusException"),
    }
}

#[test]
fn encode_fault_becomes_codec_error() {
    let e = encoder(Channels::Mono, 10);
    match e.finish_encode(Err("opus_encode: buffer too small".to_string())) {
        Ok(_) => panic!("fault was lost"),
        Err(x) => assert_eq!(x.message(), "Failed to encode audio: opus_encode: buffer too small"),
    }
}

#[test]
fn bitrate_report_maps_settings_to_codes() {
    assert_eq!(bitrate_report(Ok(Bitrate::Auto)).ok(), Some(-1000));
    assert_eq!(bitrate_report(Ok(Bitrate::Max)).ok(), Some(-1));
    assert_eq!(bitrate_report(Ok(Bitrate::Bits(24_000))).ok(), Some(24_000));
    match bitrate_report(Err("opus_encoder_ctl: invalid state".to_string())) {
        Ok(_) => panic!("fault was lost"),
        Err(e) => assert_eq!(e.message(), "Failed to get encoder bitrate: opus_encoder_ctl: invalid state"),
    }
}

#[test]
fn created_encoder_gets_a_live_handle_until_closed() {
    let drops = Rc::new(Cell::new(0));
    let mut reg = Registry::new();
    let h = create_encoder(&mut reg, Ok(Engine { drops: drops.clone() }), 1, 4000).ok().unwrap();
    assert_ne!(h, NO_HANDLE);
    {
        let container = reg.resolve(h).ok().unwrap();
        assert_eq!(container.channels, Channels::Stereo);
        assert_eq!(container.max_packet_size(), 4000);
    }
    assert_eq!(encoder_close(&mut reg, h).ok(), Some(NO_HANDLE));
    assert_eq!(drops.get(), 1);
    assert!(reg.resolve(h).is_err());
    assert!(encoder_close(&mut reg, h).is_err());
    assert_eq!(drops.get(), 1);
}

#[test]
fn rejected_encoder_gets_no_handle() {
    let mut reg: Registry<EncoderContainer<Engine>> = Registry::new();
    match create_encoder(&mut reg, Err("opus_encoder_create: invalid argument".to_string()), 1, 2049) {
        Ok(_) => panic!("rejected engine was registered"),
        Err(e) => assert_eq!(e.message(), "Failed to create encoder: opus_encoder_create: invalid argument"),
    }
}

#[test]
fn voice_round_trip_buffer_sizes() {
    let e = encoder(Channels::Stereo, 4000);
    let packet = e.finish_encode(Ok(vec![0xf8, 0xff, 0xfe])).ok().unwrap();
    assert!(!packet.is_empty() && packet.len() <= 4000);
    let d = decoder(Channels::Stereo, 960);
    let out = d.finish_decode(d.output_buffer(), Ok(960)).ok().unwrap();
    assert!(out.len() <= 960 * 2);
}
