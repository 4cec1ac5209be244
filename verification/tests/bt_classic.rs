use a2dp_source::bt_classic::a2dp::{A2dpSource, A2dpState, NegotiatedConfig};
use a2dp_source::bt_classic::avdtp::{
    ErrorCode, MediaHeader, MediaType, MessageType, SbcCapability, SepType, ServiceCategory,
    SessionState, SignalId, StreamEndpoint, MAX_AVDTP_SIGNAL,
};
use a2dp_source::bt_classic::hci::{
    AclPacket, ConnectionHandle, EventCode, PacketType, MAX_HCI_PACKET_SIZE,
};
use a2dp_source::bt_classic::l2cap::{
    cid, psm, Channel, ChannelState, Packet, SignalCode, MAX_L2CAP_PAYLOAD,
};
use a2dp_source::bt_classic::sdp::{attr, uuid, A2dpSourceRecord, SdpServer, MAX_SDP_RESPONSE};
use a2dp_source::bt_classic::{BdAddr, BtError};

#[test]
fn test_a2dp_source_creation() {
    let source = A2dpSource::new();
    assert_eq!(source.state, A2dpState::Disconnected);
    assert!(!source.is_connected());
    assert!(!source.is_streaming());
}

#[test]
fn test_sequence_wrap() {
    let mut source = A2dpSource::new();
    source.sequence = 0xFFFF;

    let seq = source.next_sequence();
    assert_eq!(seq, 0xFFFF);
    assert_eq!(source.sequence, 0);
}

#[test]
fn test_negotiated_config() {
    let cap = SbcCapability::high_quality();
    let config = NegotiatedConfig::from_capability(&cap);

    assert_eq!(config.sample_rate, 44100);
    assert_eq!(config.channels, 2);
    assert!(config.joint_stereo);
}

#[test]
fn test_bd_addr() {
    let addr = BdAddr::new([1, 2, 3, 4, 5, 6]);
    assert_eq!(addr.bytes(), &[1, 2, 3, 4, 5, 6]);
    assert_eq!(BdAddr::default(), BdAddr::new([0; 6]));
    assert_eq!(BtError::Hci(3), BtError::Hci(3));
    assert_ne!(BtError::Hci(3), BtError::L2cap(3));
}

#[test]
fn test_negotiated_config_picks_the_best_of_all() {
    let config = NegotiatedConfig::from_capability(&SbcCapability::all());
    assert_eq!(
        config,
        NegotiatedConfig {
            sample_rate: 48000,
            channels: 2,
            blocks: 16,
            subbands: 8,
            bitpool: 53,
            joint_stereo: true,
            loudness: true,
        }
    );
}

#[test]
fn test_negotiated_config_falls_back() {
    let cap = SbcCapability {
        sampling_freq: 0x40,
        channel_mode: 0x08,
        block_length: 0x04,
        subbands: 0x02,
        allocation_method: 0x02,
        min_bitpool: 2,
        max_bitpool: 30,
    };
    assert_eq!(
        NegotiatedConfig::from_capability(&cap),
        NegotiatedConfig {
            sample_rate: 32000,
            channels: 1,
            blocks: 8,
            subbands: 4,
            bitpool: 30,
            joint_stereo: false,
            loudness: false,
        }
    );
    let none = NegotiatedConfig::from_capability(&SbcCapability::default());
    assert_eq!(none.sample_rate, 16000);
    assert_eq!(none.blocks, 4);
    assert_eq!(none.channels, 1);
    let stereo = SbcCapability {
        channel_mode: 0x02,
        block_length: 0x02,
        ..SbcCapability::default()
    };
    let picked = NegotiatedConfig::from_capability(&stereo);
    assert_eq!(picked.channels, 2);
    assert!(!picked.joint_stereo);
    assert_eq!(picked.blocks, 12);
}

#[test]
fn test_frame_duration() {
    let config = NegotiatedConfig::from_capability(&SbcCapability::high_quality());
    // 128 samples at 44.1 kHz.
    assert_eq!(config.frame_duration_us(), 2902);
    let all = NegotiatedConfig::from_capability(&SbcCapability::all());
    assert_eq!(all.frame_duration_us(), 2666);
}

#[test]
fn test_a2dp_source_states() {
    let mut source = A2dpSource::new();
    assert_eq!(source.local_sep.seid, 1);
    assert!(source.remote_addr.is_none());
    for (state, connected, streaming) in [
        (A2dpState::Disconnected, false, false),
        (A2dpState::Discoverable, false, false),
        (A2dpState::Connecting, false, false),
        (A2dpState::Connected, true, false),
        (A2dpState::Configuring, true, false),
        (A2dpState::Open, true, false),
        (A2dpState::Streaming, true, true),
        (A2dpState::Suspended, true, false),
        (A2dpState::Disconnecting, false, false),
    ] {
        source.state = state;
        assert_eq!(source.is_connected(), connected);
        assert_eq!(source.is_streaming(), streaming);
    }
}

#[test]
fn test_a2dp_source_counters_and_reset() {
    let mut source = A2dpSource::new();
    assert_eq!(source.next_sequence(), 0);
    assert_eq!(source.next_sequence(), 1);
    assert_eq!(source.sequence, 2);
    source.advance_timestamp(128);
    assert_eq!(source.timestamp, 128);
    source.timestamp = 0xFFFF_FFF0;
    source.advance_timestamp(0x20);
    assert_eq!(source.timestamp, 0x10);
    source.state = A2dpState::Streaming;
    source.remote_addr = Some(BdAddr::new([9; 6]));
    source.remote_seid = Some(3);
    source.avdtp_state = SessionState::Streaming;
    source.config = Some(NegotiatedConfig::default());
    source.reset();
    assert_eq!(source.state, A2dpState::Disconnected);
    assert!(source.remote_addr.is_none());
    assert!(source.remote_seid.is_none());
    assert!(source.config.is_none());
    assert_eq!(source.avdtp_state, SessionState::Idle);
    assert_eq!(source.sequence, 0);
    assert_eq!(source.timestamp, 0);
    assert_eq!(source.local_sep.seid, 1);
    assert_eq!(A2dpState::default(), A2dpState::Disconnected);
}

#[test]
fn test_sbc_capability_bytes() {
    let cap = SbcCapability::high_quality();
    let mut buf = [0xEEu8; 6];
    assert_eq!(cap.to_bytes(&mut buf), 4);
    assert_eq!(buf, [0x01, 0x15, 35, 53, 0xEE, 0xEE]);
    // The frequency bitmap 0x20 does not fit its four bits on the wire.
    let back = SbcCapability::from_bytes(&buf).unwrap();
    assert_eq!(back.sampling_freq, 0x00);
    assert_eq!(back.channel_mode, 0x01);
    assert_eq!(back.block_length, 0x01);
    assert_eq!(back.subbands, 0x01);
    assert_eq!(back.allocation_method, 0x01);
    assert_eq!(back.min_bitpool, 35);
    assert_eq!(back.max_bitpool, 53);
    assert!(SbcCapability::from_bytes(&buf[..3]).is_none());
}

#[test]
fn test_sbc_capability_round_trip() {
    let cap = SbcCapability {
        sampling_freq: 0x0A,
        channel_mode: 0x05,
        block_length: 0x0C,
        subbands: 0x02,
        allocation_method: 0x03,
        min_bitpool: 7,
        max_bitpool: 99,
    };
    let mut buf = [0u8; 4];
    cap.to_bytes(&mut buf);
    assert_eq!(buf, [0xA5, 0xCB, 7, 99]);
    assert_eq!(SbcCapability::from_bytes(&buf), Some(cap));
    let all = SbcCapability::all();
    assert_eq!(all.sampling_freq, 0xFF);
    assert_eq!(all.max_bitpool, 250);
}

#[test]
fn test_stream_endpoint_and_codes() {
    let sep = StreamEndpoint::new_source(5);
    assert_eq!(sep.seid, 5);
    assert!(!sep.in_use);
    assert_eq!(sep.media_type, MediaType::Audio);
    assert_eq!(sep.sep_type, SepType::Source);
    assert_eq!(sep.sbc_capability, SbcCapability::all());
    assert_eq!(SignalId::Discover.code(), 0x01);
    assert_eq!(SignalId::Abort.code(), 0x0A);
    assert_eq!(SignalId::DelayReport.code(), 0x0D);
    assert_eq!(MessageType::ResponseReject.code(), 0x03);
    assert_eq!(ErrorCode::BadLength.code(), 0x11);
    assert_eq!(ErrorCode::BadState.code(), 0x31);
    assert_eq!(SepType::Sink.code(), 0x01);
    assert_eq!(MediaType::Multimedia.code(), 0x02);
    assert_eq!(ServiceCategory::MediaCodec.code(), 0x07);
    assert_eq!(SessionState::default(), SessionState::Idle);
    assert_eq!(MAX_AVDTP_SIGNAL, 256);
}

#[test]
fn test_media_header_bytes() {
    let mut header = MediaHeader::new();
    assert_eq!(header.version, 2);
    assert_eq!(header.payload_type, 96);
    header.sequence = 0x1234;
    header.timestamp = 0x89AB_CDEF;
    header.ssrc = 0x0102_0304;
    header.marker = true;
    header.padding = true;
    header.cc = 3;
    let mut buf = [0xEEu8; 13];
    assert_eq!(header.to_bytes(&mut buf), 12);
    assert_eq!(
        buf,
        [0xA3, 0xE0, 0x12, 0x34, 0x89, 0xAB, 0xCD, 0xEF, 0x01, 0x02, 0x03, 0x04, 0xEE]
    );
    let mut plain = [0u8; 12];
    MediaHeader::new().to_bytes(&mut plain);
    assert_eq!(plain, [0x80, 0x60, 0, 0, 0, 0, 0, 0, 0, 0, 0, 0]);
    assert_eq!(MediaHeader::default().version, 0);
}

#[test]
fn test_connection_handle_and_codes() {
    assert_eq!(ConnectionHandle::new(0xF123).raw(), 0x0123);
    assert_eq!(ConnectionHandle::new(0x0FFF).raw(), 0x0FFF);
    assert_eq!(ConnectionHandle::default().raw(), 0);
    assert_eq!(PacketType::Command.code(), 0x01);
    assert_eq!(PacketType::Event.code(), 0x04);
    assert_eq!(EventCode::CommandComplete.code(), 0x0E);
    assert_eq!(EventCode::SimplePairingComplete.code(), 0x36);
    assert_eq!(MAX_HCI_PACKET_SIZE, 512);
}

#[test]
fn test_acl_packet_from_bytes() {
    // Handle 0x0123, boundary flag 2, broadcast flag 1, three bytes.
    let bytes = [0x23, 0x61, 0x03, 0x00, 0xAA, 0xBB, 0xCC, 0xDD];
    let packet = AclPacket::from_bytes(&bytes).unwrap();
    assert_eq!(packet.handle.raw(), 0x0123);
    assert_eq!(packet.pb_flag, 2);
    assert_eq!(packet.bc_flag, 1);
    assert_eq!(packet.data.to_vec(), vec![0xAA, 0xBB, 0xCC]);

    assert!(AclPacket::from_bytes(&bytes[..3]).is_none());
    assert!(AclPacket::from_bytes(&bytes[..6]).is_none());
    assert!(AclPacket::from_bytes(&[0, 0, 0, 0]).unwrap().data.to_vec().is_empty());
}

#[test]
fn test_acl_packet_capacity() {
    let mut bytes = vec![0x01, 0x00, 0x00, 0x02];
    bytes.extend(std::iter::repeat(7u8).take(512));
    let packet = AclPacket::from_bytes(&bytes).unwrap();
    assert_eq!(packet.data.to_vec().len(), 512);
    // One byte more than the buffer holds.
    let mut long = vec![0x01, 0x00, 0x01, 0x02];
    long.extend(std::iter::repeat(7u8).take(513));
    assert!(AclPacket::from_bytes(&long).is_none());
}

#[test]
fn test_acl_packet_round_trip() {
    let bytes = [0x23, 0x61, 0x03, 0x00, 0xAA, 0xBB, 0xCC];
    let packet = AclPacket::from_bytes(&bytes).unwrap();
    let mut buf = [0xEEu8; 9];
    assert_eq!(packet.to_bytes(&mut buf), 7);
    assert_eq!(buf[..7], bytes);
    assert_eq!(buf[7..], [0xEE, 0xEE]);

    let empty = AclPacket::new(ConnectionHandle::new(0x0042), 1, 0);
    assert!(empty.data.to_vec().is_empty());
    let mut header = [0u8; 4];
    assert_eq!(empty.to_bytes(&mut header), 4);
    assert_eq!(header, [0x42, 0x10, 0x00, 0x00]);
}

#[test]
fn test_l2cap_channel_and_constants() {
    let channel = Channel::new(0x0040, psm::AVDTP);
    assert_eq!(channel.local_cid, 0x0040);
    assert_eq!(channel.remote_cid, 0);
    assert_eq!(channel.psm, 0x0019);
    assert_eq!(channel.state, ChannelState::Closed);
    assert_eq!(channel.mtu, 672);
    assert_eq!(psm::SDP, 0x0001);
    assert_eq!(psm::RFCOMM, 0x0003);
    assert_eq!(cid::SIGNALING, 0x0001);
    assert_eq!(cid::CONNECTIONLESS, 0x0002);
    assert_eq!(cid::DYNAMIC_START, 0x0040);
    assert_eq!(SignalCode::CommandReject.code(), 0x01);
    assert_eq!(SignalCode::InformationResponse.code(), 0x0B);
    assert_eq!(ChannelState::default(), ChannelState::Closed);
    assert_eq!(MAX_L2CAP_PAYLOAD, 1024);
}

#[test]
fn test_l2cap_packet_bytes() {
    let bytes = [0x02, 0x00, 0x41, 0x00, 0x10, 0x20, 0x30];
    let packet = Packet::from_bytes(&bytes).unwrap();
    assert_eq!(packet.cid, 0x0041);
    assert_eq!(packet.data.to_vec(), vec![0x10, 0x20]);
    let mut buf = [0xEEu8; 8];
    assert_eq!(packet.to_bytes(&mut buf), 6);
    assert_eq!(buf, [0x02, 0x00, 0x41, 0x00, 0x10, 0x20, 0xEE, 0xEE]);

    assert!(Packet::from_bytes(&bytes[..3]).is_none());
    assert!(Packet::from_bytes(&[0x05, 0x00, 0x41, 0x00, 1, 2, 3, 4]).is_none());
    assert!(Packet::new(7).data.to_vec().is_empty());

    let mut full = vec![0x00, 0x04, 0x41, 0x00];
    full.extend(std::iter::repeat(1u8).take(1024));
    assert_eq!(Packet::from_bytes(&full).unwrap().data.to_vec().len(), 1024);
    let mut over = vec![0x01, 0x04, 0x41, 0x00];
    over.extend(std::iter::repeat(1u8).take(1025));
    assert!(Packet::from_bytes(&over).is_none());
}

#[test]
fn test_sdp_record_and_server() {
    let record = A2dpSourceRecord::default();
    assert_eq!(record.handle, 0x0001_0001);
    assert_eq!(record.avdtp_version, 0x0103);
    assert_eq!(record.a2dp_version, 0x0103);
    assert_eq!(record.features, 0x0001);
    let mut buf = [0xEEu8; 32];
    assert_eq!(record.to_bytes(&mut buf), 2);
    assert_eq!(buf[..3], [0x35, 0x00, 0xEE]);

    let mut server = SdpServer::new();
    server.register_a2dp_source(record);
    let mut response = [0xEEu8; 8];
    for request in [&[][..], &[0x02, 1][..], &[0x04][..], &[0x06][..], &[0x07][..]] {
        assert_eq!(server.handle_request(request, &mut response), 0);
        assert_eq!(response, [0xEE; 8]);
    }
    assert_eq!(uuid::AUDIO_SOURCE, 0x110A);
    assert_eq!(uuid::ADVANCED_AUDIO, 0x110D);
    assert_eq!(uuid::L2CAP, 0x0100);
    assert_eq!(attr::SUPPORTED_FEATURES, 0x0311);
    assert_eq!(attr::PROTOCOL_DESCRIPTOR_LIST, 0x0004);
    assert_eq!(MAX_SDP_RESPONSE, 512);
}
