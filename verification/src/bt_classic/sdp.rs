//! SDP (Service Discovery Protocol): service registration and discovery
//! for A2DP.

pub mod attr;
pub mod uuid;

use vstd::prelude::*;

verus! {

/// Maximum SDP response size.
pub const MAX_SDP_RESPONSE: usize = 512;

/// A2DP Source service record.
#[derive(Debug, Clone)]
pub struct A2dpSourceRecord {
    /// Service record handle
    pub handle: u32,
    /// AVDTP version (e.g., 0x0103 for 1.3)
    pub avdtp_version: u16,
    /// A2DP version (e.g., 0x0103 for 1.3)
    pub a2dp_version: u16,
    /// Supported features bitmap
    pub features: u16,
}

impl Default for A2dpSourceRecord {
    /// Handle 0x00010001, AVDTP 1.3, A2DP 1.3, the player feature.
    fn default() -> (r: Self)
        ensures
            r.handle == 0x0001_0001,
            r.avdtp_version == 0x0103,
            r.a2dp_version == 0x0103,
            r.features == 0x0001,
    {
        A2dpSourceRecord {
            handle: 0x0001_0001,
            avdtp_version: 0x0103,
            a2dp_version: 0x0103,
            features: 0x0001,
        }
    }
}

impl A2dpSourceRecord {
    /// Serialize the service record. Only the frame of the record is
    /// written so far: the data-element-sequence tag and a zero length.
    /// `buf` must hold at least 32 bytes.
    pub fn to_bytes(&self, buf: &mut [u8]) -> (n: usize)
        requires
            old(buf).len() >= 32,
        ensures
            n == 2,
            final(buf)@ == old(buf)@.update(0, 0x35u8).update(1, 0x00u8),
    {
        let mut pos: usize = 0;
        buf[pos] = 0x35;
        pos += 1;
        buf[pos] = 0x00;
        pos += 1;
        pos
    }
}

/// SDP server state.
pub struct SdpServer {
    /// Registered A2DP source record
    source_record: Option<A2dpSourceRecord>,
}

impl SdpServer {
    /// The registered A2DP source record, if any.
    pub closed spec fn record(&self) -> Option<A2dpSourceRecord> {
        self.source_record
    }

    /// Create a new SDP server with nothing registered.
    pub fn new() -> (r: Self)
        ensures
            r.record() is None,
    {
        SdpServer { source_record: None }
    }

    /// Register the A2DP source service.
    pub fn register_a2dp_source(&mut self, record: A2dpSourceRecord)
        ensures
            final(self).record() == Some(record),
    {
        self.source_record = Some(record);
    }

    /// Handle an SDP request. No PDU is answered yet: the response is left
    /// untouched and its length is 0, whatever the request.
    pub fn handle_request(&self, request: &[u8], response: &mut [u8]) -> (n: usize)
        ensures
            n == 0,
            final(response)@ == old(response)@,
    {
        if request.len() == 0 {
            return 0;
        }
        let pdu_id: u8 = request[0];
        match pdu_id {
            0x02 => self.handle_service_search(request, response),
            0x04 => self.handle_attribute_search(request, response),
            0x06 => self.handle_service_search_attribute(request, response),
            _ => 0,
        }
    }

    fn handle_service_search(&self, _request: &[u8], _response: &mut [u8]) -> (n: usize)
        ensures
            n == 0,
            final(_response)@ == old(_response)@,
    {
        0
    }

    fn handle_attribute_search(&self, _request: &[u8], _response: &mut [u8]) -> (n: usize)
        ensures
            n == 0,
            final(_response)@ == old(_response)@,
    {
        0
    }

    fn handle_service_search_attribute(&self, _request: &[u8], _response: &mut [u8]) -> (n: usize)
        ensures
            n == 0,
            final(_response)@ == old(_response)@,
    {
        0
    }
}

impl Default for SdpServer {
    fn default() -> (r: Self)
        ensures
            r.record() is None,
    {
        SdpServer::new()
    }
}

} // verus!
