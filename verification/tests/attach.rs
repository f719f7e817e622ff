use capture_transfer::control_page::VideoTrackControlPage;
use capture_transfer::model::{ClockDomain, ColorSpace, PixelFormat};
use capture_transfer::native::attach::{AttachEndpoint, AttachError, AttachGrant, AttachRequest, AttachResponse, AttachSession};
use capture_transfer::native::fake::{FakeCapturedFrame, FakeNativeBackend, FakeSurfaceRegistry};
use capture_transfer::native::{NativeStreamParams, NativeTrackProducer, PoolExhaustionPolicy};

fn params() -> NativeStreamParams {
    NativeStreamParams {
        width: 640,
        height: 480,
        pixel_format: PixelFormat::Bgra8Unorm,
        color_space: ColorSpace::Srgb,
        clock_domain: ClockDomain::HostTime,
        modifier: 0,
    }
}

fn producer() -> NativeTrackProducer<FakeNativeBackend> {
    match NativeTrackProducer::new(
        FakeNativeBackend::new(FakeSurfaceRegistry::default()),
        params(),
        2,
        3,
        PoolExhaustionPolicy::default(),
    ) {
        Ok(producer) => producer,
        Err(error) => panic!("producer not created: {error:?}"),
    }
}

/// An in-memory request/response loop that counts every message crossing
/// the setup channel.
struct FakeTransport {
    endpoint: AttachEndpoint,
    session: AttachSession,
    messages: usize,
}

impl FakeTransport {
    fn new(expected_bearer: Option<&str>) -> Self {
        Self {
            endpoint: AttachEndpoint::new(expected_bearer.map(str::to_string)),
            session: AttachSession::default(),
            messages: 0,
        }
    }

    fn request(
        &mut self,
        producer: &mut NativeTrackProducer<FakeNativeBackend>,
        request: AttachRequest,
    ) -> Result<AttachResponse<Vec<u8>, Vec<u8>>, AttachError> {
        self.messages += 2;
        self.endpoint.handle(&mut self.session, producer, request)
    }
}

fn attach(
    transport: &mut FakeTransport,
    producer: &mut NativeTrackProducer<FakeNativeBackend>,
    consumer_id: u64,
) -> AttachGrant<Vec<u8>, Vec<u8>> {
    match transport.request(producer, AttachRequest::Attach { consumer_id }) {
        Ok(AttachResponse::Granted(grant)) => *grant,
        other => panic!("attach not granted: {other:?}"),
    }
}

#[test]
fn attach_transfers_handles_once_and_steady_state_is_shared_memory_only() {
    let mut producer = producer();
    let mut transport = FakeTransport::new(Some("pta_agent.secret"));

    assert!(matches!(
        transport.request(&mut producer, AttachRequest::Authorize { bearer_token: "pta_agent.secret".to_string() }),
        Ok(AttachResponse::Authorized)
    ));
    let grant = attach(&mut transport, &mut producer, 7);
    let handshake_messages = transport.messages;
    assert_eq!(handshake_messages, 4);

    assert_eq!(grant.consumer_id, 7);
    assert_eq!(grant.pool_slot_count, 3);
    assert_eq!(grant.surface_handles.len(), 3);
    let ring = VideoTrackControlPage::map_read_only(&grant.ring_image, grant.ring_map_len as usize).unwrap();
    assert_eq!(ring.consumer_cursor_entry(grant.consumer_slot as usize).consumer_id, 7);
    let sync_fence_id = u64::from_le_bytes(grant.sync_handle.as_slice().try_into().unwrap());
    assert_eq!(sync_fence_id, grant.fence_id);

    for sequence in 1..=3u64 {
        producer.publish(&FakeCapturedFrame { bytes: vec![sequence as u8] }, sequence).unwrap();
        // The shared mapping, read afresh: no setup-channel message.
        let ring = VideoTrackControlPage::map_read_only(&producer.control_page_image(), grant.ring_map_len as usize).unwrap();
        let entry = ring.read_latest_lossy_entry().unwrap().unwrap();
        assert_eq!(entry.sequence, sequence);
        assert_eq!(entry.pool_id, grant.pool_id);
        assert_eq!(entry.fence_id, grant.fence_id);
        let registry = producer.backend().registry();
        assert!(registry.fence_value(entry.fence_id).unwrap() >= entry.fence_value);
        let handle = &grant.surface_handles[entry.slot_id as usize];
        let handle_pool = u64::from_le_bytes(handle[0..8].try_into().unwrap());
        let handle_slot = u32::from_le_bytes(handle[8..12].try_into().unwrap());
        assert_eq!((handle_pool, handle_slot), (entry.pool_id, entry.slot_id));
        assert_eq!(registry.surface_bytes(handle_pool, handle_slot).unwrap(), vec![sequence as u8]);
    }
    assert_eq!(transport.messages, handshake_messages, "setup channel used after attach");
}

#[test]
fn attach_before_authorize_is_rejected_when_token_required() {
    let mut producer = producer();
    let mut transport = FakeTransport::new(Some("pta_agent.secret"));

    let error = transport.request(&mut producer, AttachRequest::Attach { consumer_id: 7 }).unwrap_err();
    assert_eq!(error, AttachError::NotAuthorized);
}

#[test]
fn wrong_bearer_token_is_rejected_and_does_not_authorize() {
    let mut producer = producer();
    let mut transport = FakeTransport::new(Some("pta_agent.secret"));

    let error = transport
        .request(&mut producer, AttachRequest::Authorize { bearer_token: "pta_agent.wrong".to_string() })
        .unwrap_err();
    assert_eq!(error, AttachError::InvalidToken);

    let error = transport.request(&mut producer, AttachRequest::Attach { consumer_id: 7 }).unwrap_err();
    assert_eq!(error, AttachError::NotAuthorized);
}

#[test]
fn second_attach_on_the_same_session_is_rejected() {
    let mut producer = producer();
    let mut transport = FakeTransport::new(None);

    let _grant = attach(&mut transport, &mut producer, 7);
    let error = transport.request(&mut producer, AttachRequest::Attach { consumer_id: 7 }).unwrap_err();
    assert_eq!(error, AttachError::AlreadyAttached);
}

#[test]
fn unauthenticated_endpoint_attaches_without_authorize() {
    let mut producer = producer();
    let mut transport = FakeTransport::new(None);

    let grant = attach(&mut transport, &mut producer, 7);
    assert_eq!(grant.consumer_id, 7);
}

#[test]
fn zero_consumer_id_requests_assigned_consumer_id() {
    let mut producer = producer();

    let first = attach(&mut FakeTransport::new(None), &mut producer, 0);
    let second = attach(&mut FakeTransport::new(None), &mut producer, 0);

    assert_ne!(first.consumer_id, 0);
    assert_ne!(second.consumer_id, 0);
    assert_ne!(first.consumer_id, second.consumer_id);
    assert_ne!(first.consumer_slot, second.consumer_slot);
    assert_eq!(first.consumer_id, (1 << 63) | 1);
}

#[test]
fn reattach_on_a_new_session_reuses_the_consumer_slot() {
    let mut producer = producer();

    let first = attach(&mut FakeTransport::new(None), &mut producer, 7);
    let second = attach(&mut FakeTransport::new(None), &mut producer, 7);
    assert_eq!(first.consumer_slot, second.consumer_slot);
    assert_eq!(first.pool_id, second.pool_id);
    assert_eq!(first.fence_id, second.fence_id);
}

#[test]
fn attach_error_messages_read_as_documented() {
    assert_eq!(AttachError::NotAuthorized.to_message(), "attach requires authorization first");
    assert_eq!(AttachError::InvalidToken.to_message(), "bearer token rejected");
    assert_eq!(AttachError::AlreadyAttached.to_message(), "consumer is already attached on this session");
    assert_eq!(
        AttachError::Grant(capture_transfer::error::CaptureTransferError::MissingPassedFd).to_message(),
        "assembling the attach grant failed: fd passing response did not include a file descriptor"
    );
}

#[test]
fn a_full_consumer_table_refuses_the_grant() {
    let mut producer = producer();
    let _a = attach(&mut FakeTransport::new(None), &mut producer, 1);
    let _b = attach(&mut FakeTransport::new(None), &mut producer, 2);
    let mut transport = FakeTransport::new(None);
    let error = transport.request(&mut producer, AttachRequest::Attach { consumer_id: 3 }).unwrap_err();
    assert!(matches!(error, AttachError::Grant(_)));
    // The failed attach left the session open for a retry.
    let error = transport.request(&mut producer, AttachRequest::Attach { consumer_id: 3 }).unwrap_err();
    assert!(matches!(error, AttachError::Grant(_)));
}
