//! The application side of an FSP session: what the session layer hands an
//! application, and the adapter that serves the service layer over it.

use vstd::prelude::*;
use vstd::string::StringSliceAdditionalSpecFns;

use crate::bytes::{bytes_eq, spliced, write_bytes};
use crate::service::{
    dispatch_request, encode_response, response_wire, spec_dispatch, written_front, ContentType,
    ServiceError, ServiceHandler,
};

verus! {

/// What an application asks the FSP session layer to do with a message.
#[derive(Debug, Clone, Copy, PartialEq, Eq, Structural)]
pub enum FspAppResult {
    NoReply,
    Reply { msg_type: u8, len: usize },
    Disconnect,
}

/// Identity context for an inbound FSP application message.
///
/// `link_pubkey` is the x-only key of the link peer the handler is bound to;
/// all-zero is the unprovisioned sentinel. `src_addr` is the datagram's
/// source node address, routing-only and not authenticated.
#[derive(Debug, Clone, Copy, PartialEq, Eq)]
pub struct PeerContext {
    pub link_pubkey: [u8; 32],
    pub src_addr: Option<[u8; 16]>,
}

impl PeerContext {
    /// False while `link_pubkey` is the all-zero unprovisioned sentinel.
    pub fn link_pubkey_is_provisioned(&self) -> (r: bool)
        ensures
            r == exists|i: int| 0 <= i < 32 && self.link_pubkey@[i] != 0u8,
    {
        let mut i: usize = 0;
        while i < 32
            invariant
                0 <= i <= 32,
                forall|k: int| 0 <= k < i ==> self.link_pubkey@[k] == 0u8,
            decreases 32 - i,
        {
            if self.link_pubkey[i] != 0 {
                return true;
            }
            i = i + 1;
        }
        false
    }
}

/// An application served over an established FSP session.
pub trait FspAppHandler {
    fn on_fsp_message(
        &mut self,
        msg_type: u8,
        payload: &[u8],
        response: &mut [u8],
        peer: &PeerContext,
    ) -> FspAppResult;
}

/// An application that ignores every message.
pub struct NoopFspApp;

impl FspAppHandler for NoopFspApp {
    fn on_fsp_message(
        &mut self,
        msg_type: u8,
        payload: &[u8],
        response: &mut [u8],
        peer: &PeerContext,
    ) -> (r: FspAppResult)
        ensures
            r == FspAppResult::NoReply,
            final(response)@ == old(response)@,
    {
        FspAppResult::NoReply
    }
}

/// The liveness probe an adapter answers directly.
pub const PING: &'static str = "PING";

/// The answer to [`PING`].
pub const PONG: &'static str = "PONG";

/// Serves a service handler over FSP data messages.
pub struct FspServiceAdapter<H> {
    inner: H,
    data_msg_type: u8,
}

/// What an adapter answers to a data message: the result and the response
/// buffer afterwards.
pub open spec fn spec_adapter_reply<H: ServiceHandler>(
    inner: H,
    data_msg_type: u8,
    payload: Seq<u8>,
    response: Seq<u8>,
) -> (FspAppResult, Seq<u8>) {
    if payload == PING.spec_bytes() && response.len() >= 4 {
        (FspAppResult::Reply { msg_type: data_msg_type, len: 4 }, written_front(response, PONG.spec_bytes()))
    } else {
        let (res, after) = spec_dispatch(inner, payload, response);
        match res {
            Ok(len) => (FspAppResult::Reply { msg_type: data_msg_type, len }, after),
            Err(err) => {
                let msg = err.message_text().spec_bytes();
                if after.len() < 8 + msg.len() || msg.len() > u16::MAX {
                    (FspAppResult::Disconnect, after)
                } else {
                    (
                        FspAppResult::Reply { msg_type: data_msg_type, len: (8 + msg.len()) as usize },
                        written_front(after, response_wire(err.spec_status(), ContentType::Text, msg)),
                    )
                }
            },
        }
    }
}

impl<H> FspServiceAdapter<H> {
    pub closed spec fn spec_inner(&self) -> H {
        self.inner
    }

    /// The FSP message type whose payloads carry service envelopes.
    pub closed spec fn spec_data_msg_type(&self) -> u8 {
        self.data_msg_type
    }

    /// Wraps `inner`; `data_msg_type` is the FSP message type of application
    /// data, the only type the adapter answers.
    pub fn new(inner: H, data_msg_type: u8) -> (r: Self)
        ensures
            r.spec_inner() == inner,
            r.spec_data_msg_type() == data_msg_type,
    {
        FspServiceAdapter { inner, data_msg_type }
    }

    pub fn inner(&self) -> (r: &H)
        ensures
            *r == self.spec_inner(),
    {
        &self.inner
    }

    pub fn inner_mut(&mut self) -> (r: &mut H)
        ensures
            *r == old(self).spec_inner(),
            final(self).spec_inner() == *final(r),
            final(self).spec_data_msg_type() == old(self).spec_data_msg_type(),
    {
        &mut self.inner
    }
}

proof fn lemma_ping_pong_bytes()
    ensures
        PING.spec_bytes() == seq![80u8, 73u8, 78u8, 71u8],
        PONG.spec_bytes() == seq![80u8, 79u8, 78u8, 71u8],
{
    broadcast use vstd::string::is_ascii_spec_bytes;

    reveal_strlit("PING");
    reveal_strlit("PONG");
    assert(vstd::string::is_ascii(PING));
    assert(vstd::string::is_ascii(PONG));
    assert(PING.spec_bytes() =~= seq![80u8, 73u8, 78u8, 71u8]);
    assert(PONG.spec_bytes() =~= seq![80u8, 79u8, 78u8, 71u8]);
}

impl<H: ServiceHandler> FspAppHandler for FspServiceAdapter<H> {
    fn on_fsp_message(
        &mut self,
        msg_type: u8,
        payload: &[u8],
        response: &mut [u8],
        peer: &PeerContext,
    ) -> (r: FspAppResult)
        ensures
            final(response)@.len() == old(response)@.len(),
            msg_type != old(self).spec_data_msg_type() ==> r == FspAppResult::NoReply && final(response)@
                == old(response)@,
            msg_type == old(self).spec_data_msg_type() ==> (r, final(response)@) == spec_adapter_reply(
                old(self).spec_inner(),
                msg_type,
                payload@,
                old(response)@,
            ),
            final(self).spec_data_msg_type() == old(self).spec_data_msg_type(),
    {
        if msg_type != self.data_msg_type {
            return FspAppResult::NoReply;
        }
        proof {
            lemma_ping_pong_bytes();
        }
        if bytes_eq(payload, PING.as_bytes()) && response.len() >= 4 {
            write_bytes(response, 0, PONG.as_bytes());
            proof {
                assert(spliced(old(response)@, 0int, PONG.spec_bytes()) =~= written_front(
                    old(response)@,
                    PONG.spec_bytes(),
                ));
            }
            return FspAppResult::Reply { msg_type: self.data_msg_type, len: 4 };
        }
        match dispatch_request(&mut self.inner, payload, response) {
            Ok(len) => FspAppResult::Reply { msg_type: self.data_msg_type, len },
            Err(err) => match encode_response(
                err.status(),
                ContentType::Text,
                err.message().as_bytes(),
                response,
            ) {
                Ok(len) => FspAppResult::Reply { msg_type: self.data_msg_type, len },
                Err(_) => FspAppResult::Disconnect,
            },
        }
    }
}

} // verus!
