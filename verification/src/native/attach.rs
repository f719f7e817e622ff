//! The attach handshake of the native handle path: how a consumer is
//! introduced to a stream, whatever the transport.
//!
//! Everything a consumer needs crosses exactly once, at attach: the ring
//! image, the pool's surface handles and the fence handle. Steady state after
//! that is shared memory only. Only the protocol lives here: what crosses, in
//! what order, under what authorization, once per session.

use vstd::prelude::*;
use vstd::string::*;

use crate::error::{spec_error_message, CaptureTransferError};
use crate::control_page::{spec_has_id, spec_is_page_error};
use crate::native::{
    spec_assigned_consumer_id, spec_consumers_registered, spec_grant_describes, spec_grant_failed, NativeFrameBackend, NativeTrackProducer,
};

verus! {

/// A consumer-to-producer request on the setup channel.
#[derive(Debug, Clone, PartialEq, Eq)]
pub enum AttachRequest {
    /// Present a bearer token; must precede `Attach` when the endpoint
    /// requires authorization.
    Authorize { bearer_token: String },
    /// Request the one-time transfer for `consumer_id`; 0 asks the endpoint
    /// to assign one.
    Attach { consumer_id: u64 },
}

/// A producer-to-consumer response, generic over the backend's handle types.
#[derive(Debug)]
pub enum AttachResponse<S, Y> {
    Authorized,
    Granted(Box<AttachGrant<S, Y>>),
}

/// Everything a consumer needs, transferred once.
#[derive(Debug)]
pub struct AttachGrant<S, Y> {
    pub consumer_id: u64,
    /// The consumer-cursor table entry assigned to this consumer.
    pub consumer_slot: u64,
    /// The control page's byte image; map `ring_map_len` bytes of it.
    pub ring_image: Vec<u8>,
    pub ring_map_len: u64,
    pub pool_id: u64,
    pub pool_slot_count: u32,
    /// One surface handle per pool slot, indexed by `slot_id`.
    pub surface_handles: Vec<S>,
    pub fence_id: u64,
    pub sync_handle: Y,
}

/// A pool as introduced to consumers that attached before it existed.
#[derive(Debug)]
pub struct AttachPool<S> {
    pub pool_id: u64,
    pub pool_slot_count: u32,
    /// One surface handle per pool slot, indexed by `slot_id`.
    pub surface_handles: Vec<S>,
}

#[derive(Debug, Clone, PartialEq, Eq)]
pub enum AttachError {
    NotAuthorized,
    InvalidToken,
    AlreadyAttached,
    Grant(CaptureTransferError),
}

/// The human-readable description of an attach error.
pub open spec fn spec_attach_error_message(error: AttachError) -> Seq<char> {
    match error {
        AttachError::NotAuthorized => "attach requires authorization first"@,
        AttachError::InvalidToken => "bearer token rejected"@,
        AttachError::AlreadyAttached => "consumer is already attached on this session"@,
        AttachError::Grant(source) => "assembling the attach grant failed: "@ + spec_error_message(source),
    }
}

impl AttachError {
    /// The error's message, as its `Display` form would print it.
    pub fn to_message(&self) -> (text: String)
        ensures
            text@ == spec_attach_error_message(*self),
    {
        match self {
            AttachError::NotAuthorized => String::from_str("attach requires authorization first"),
            AttachError::InvalidToken => String::from_str("bearer token rejected"),
            AttachError::AlreadyAttached => String::from_str("consumer is already attached on this session"),
            AttachError::Grant(source) => {
                let mut text = String::from_str("assembling the attach grant failed: ");
                let detail = source.to_message();
                text.append(detail.as_str());
                text
            },
        }
    }
}

/// Per-connection handshake state. Reconnecting is a new session, which is
/// the recovery path rather than an error.
#[derive(Debug)]
pub struct AttachSession {
    authorized: bool,
    attached: bool,
}

impl Default for AttachSession {
    /// A session that has neither authorized nor attached.
    fn default() -> (session: Self)
        ensures
            !session.authorized_view(),
            !session.attached_view(),
    {
        AttachSession { authorized: false, attached: false }
    }
}

impl AttachSession {
    pub closed spec fn authorized_view(&self) -> bool {
        self.authorized
    }

    pub closed spec fn attached_view(&self) -> bool {
        self.attached
    }
}

/// The producer-side endpoint: checks ordering and authorization, then asks
/// the producer for the one-time grant.
#[derive(Debug)]
pub struct AttachEndpoint {
    /// `None`: unauthenticated (synthetic and test streams); `Some`: a
    /// matching `Authorize` must precede `Attach`.
    expected_bearer: Option<String>,
}

/// `std::hint::black_box`: documented as an identity function that the
/// optimizer must treat as opaque, which keeps the token comparison below
/// data-independent. Its contract claims only that the byte comes back
/// unchanged.
#[verifier::external_body]
fn opaque_byte(value: u8) -> (same: u8)
    ensures
        same == value,
{
    std::hint::black_box(value)
}

/// Token equality whose time does not depend on how many leading bytes
/// match; only the length leaks, and tokens are fixed-format.
fn constant_time_token_eq(expected: &str, presented: &str) -> (equal: bool)
    ensures
        equal == (expected@ == presented@),
{
    proof {
        vstd::utf8::encode_utf8_decode_utf8(expected@);
        vstd::utf8::encode_utf8_decode_utf8(presented@);
    }
    let a = expected.as_bytes();
    let b = presented.as_bytes();
    if a.len() != b.len() {
        return false;
    }
    let mut diff: u8 = 0;
    let mut index: usize = 0;
    while index < a.len()
        invariant
            a@ == expected.spec_bytes(),
            b@ == presented.spec_bytes(),
            a@.len() == b@.len(),
            index <= a@.len(),
            (diff == 0) <==> (forall|j: int| 0 <= j < index ==> a@[j] == b@[j]),
        decreases a@.len() - index,
    {
        let x = a[index];
        let y = b[index];
        let next = diff | (x ^ y);
        assert((diff | (x ^ y)) == 0 <==> (diff == 0 && x == y)) by (bit_vector);
        diff = next;
        index = index + 1;
    }
    proof {
        if diff == 0 {
            assert(a@ =~= b@);
        }
    }
    opaque_byte(diff) == 0
}

impl AttachEndpoint {
    pub fn new(expected_bearer: Option<String>) -> (endpoint: Self)
        ensures
            endpoint.expected_bearer_view() == expected_bearer,
    {
        AttachEndpoint { expected_bearer }
    }

    pub closed spec fn expected_bearer_view(&self) -> Option<String> {
        self.expected_bearer
    }

    /// Whether `token` matches the endpoint's expected bearer token.
    pub open spec fn spec_token_accepted(&self, token: String) -> bool {
        match self.expected_bearer_view() {
            Some(expected) => expected@ == token@,
            None => true,
        }
    }

    /// Apply one request to a session. A transport's job is exactly this
    /// loop: decode a request, call `handle`, encode the response or error.
    pub fn handle<B: NativeFrameBackend>(
        &self,
        session: &mut AttachSession,
        producer: &mut NativeTrackProducer<B>,
        request: AttachRequest,
    ) -> (response: Result<AttachResponse<B::SurfaceHandle, B::SyncHandle>, AttachError>)
        requires
            old(producer).wf(),
        ensures
            final(producer).wf(),
            (final(session).authorized_view(), final(session).attached_view()) == spec_session_step(
                *self,
                old(session).authorized_view(),
                old(session).attached_view(),
                request,
                response is Ok,
            ),
            match request {
                AttachRequest::Authorize { bearer_token } => {
                    &&& *final(producer) == *old(producer)
                    &&& if self.spec_token_accepted(bearer_token) {
                        response matches Ok(AttachResponse::Authorized)
                    } else {
                        response matches Err(AttachError::InvalidToken)
                    }
                },
                AttachRequest::Attach { consumer_id } => {
                    if self.expected_bearer_view() is Some && !old(session).authorized_view() {
                        &&& response matches Err(AttachError::NotAuthorized)
                        &&& *final(producer) == *old(producer)
                    } else if old(session).attached_view() {
                        &&& response matches Err(AttachError::AlreadyAttached)
                        &&& *final(producer) == *old(producer)
                    } else {
                        let granted_id = if consumer_id == 0 {
                            spec_assigned_consumer_id(old(producer).next_assigned_consumer_id_view())
                        } else {
                            consumer_id
                        };
                        let entries = old(producer).page_view().consumers_view();
                        &&& final(producer).sequence_view() == old(producer).sequence_view()
                        &&& final(producer).last_cursor_view() == old(producer).last_cursor_view()
                        &&& final(producer).slot_cursors_view() == old(producer).slot_cursors_view()
                        &&& final(producer).page_view().slots_view() == old(producer).page_view().slots_view()
                        &&& final(producer).next_assigned_consumer_id_view() == if consumer_id == 0 {
                            old(producer).next_assigned_consumer_id_view().wrapping_add(1)
                        } else {
                            old(producer).next_assigned_consumer_id_view()
                        }
                        &&& granted_id != 0
                        &&& spec_consumers_registered(entries, granted_id, final(producer).page_view().consumers_view())
                        &&& !spec_has_id(entries, granted_id) && !spec_has_id(entries, 0) ==> (response matches Err(
                            AttachError::Grant(error),
                        ) && spec_is_page_error(error, "consumer cursor table is full"@))
                        &&& match response {
                            Ok(AttachResponse::Granted(grant)) => spec_grant_describes(
                                *old(producer),
                                *final(producer),
                                granted_id,
                                *grant,
                            ),
                            Ok(AttachResponse::Authorized) => false,
                            Err(error) => error matches AttachError::Grant(cause) && spec_grant_failed(
                                *old(producer),
                                granted_id,
                                cause,
                            ),
                        }
                    }
                },
            },
    {
        match request {
            AttachRequest::Authorize { bearer_token } => {
                match &self.expected_bearer {
                    Some(expected) => {
                        if constant_time_token_eq(expected.as_str(), bearer_token.as_str()) {
                            session.authorized = true;
                            Ok(AttachResponse::Authorized)
                        } else {
                            Err(AttachError::InvalidToken)
                        }
                    },
                    None => {
                        session.authorized = true;
                        Ok(AttachResponse::Authorized)
                    },
                }
            },
            AttachRequest::Attach { consumer_id } => {
                if self.expected_bearer.is_some() && !session.authorized {
                    return Err(AttachError::NotAuthorized);
                }
                if session.attached {
                    return Err(AttachError::AlreadyAttached);
                }
                let consumer_id = if consumer_id == 0 {
                    producer.assign_consumer_id()
                } else {
                    consumer_id
                };
                match producer.grant_attach(consumer_id) {
                    Ok(grant) => {
                        session.attached = true;
                        Ok(AttachResponse::Granted(Box::new(grant)))
                    },
                    Err(error) => Err(AttachError::Grant(error)),
                }
            },
        }
    }
}

/// A session's `(authorized, attached)` state after handling `request`,
/// where `succeeded` says whether the handler answered `Ok`.
pub open spec fn spec_session_step(
    endpoint: AttachEndpoint,
    authorized: bool,
    attached: bool,
    request: AttachRequest,
    succeeded: bool,
) -> (bool, bool) {
    match request {
        AttachRequest::Authorize { bearer_token } => (
            if endpoint.spec_token_accepted(bearer_token) {
                true
            } else {
                authorized
            },
            attached,
        ),
        AttachRequest::Attach { .. } => if endpoint.expected_bearer_view() is Some && !authorized {
            (authorized, attached)
        } else if attached {
            (authorized, true)
        } else {
            (authorized, succeeded)
        },
    }
}

/// Law: on an endpoint that expects a token, a session is attached only
/// after it presented that token; every handled request keeps this so.
pub proof fn law_attach_needs_authorization(
    endpoint: AttachEndpoint,
    authorized: bool,
    attached: bool,
    request: AttachRequest,
    succeeded: bool,
)
    requires
        attached ==> endpoint.expected_bearer_view() is None || authorized,
    ensures
        ({
            let (authorized_after, attached_after) = spec_session_step(
                endpoint,
                authorized,
                attached,
                request,
                succeeded,
            );
            attached_after ==> endpoint.expected_bearer_view() is None || authorized_after
        }),
{
}

/// Law: a session attaches at most once; once attached, it stays attached
/// whatever it is sent.
pub proof fn law_attached_session_stays_attached(
    endpoint: AttachEndpoint,
    authorized: bool,
    request: AttachRequest,
    succeeded: bool,
)
    ensures
        spec_session_step(endpoint, authorized, true, request, succeeded).1,
{
}

} // verus!
