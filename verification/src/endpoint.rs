//! The upstream server's identity, fetched fresh for every send, and
//! the construction of the packets that carry it.

use vstd::prelude::*;

use crate::date::DateParts;
use crate::packet::{alive_chars, byebye_chars, ok_chars, SSDPPacket};

verus! {

/// What the upstream server's description document says it is.
/// Produced fresh on each fetch and never persisted: the next announce
/// simply reflects whatever the upstream says then.
pub struct EndpointInfo {
    pub device_type: String,
    pub unique_device_name: String,
    pub server: String,
}

/// The server banner to announce: the upstream's `Server` header when
/// it sent one, else the proxy's own banner.
pub fn server_banner_or_default(header: Option<String>) -> (r: String)
    ensures
        match header {
            Some(banner) => r@ == banner@,
            None => r@ == "DLNAProxy/1.0"@,
        },
{
    match header {
        Some(banner) => banner,
        None => {
            let r = "DLNAProxy/1.0".to_owned();
            r
        },
    }
}

/// Builds the periodic multicast announcement for the endpoint.
pub fn alive_packet(desc_url: &String, info: EndpointInfo, cache_max_age: usize) -> (r: SSDPPacket)
    ensures
        r is Alive,
        r.wf(),
        r.wire_chars() == alive_chars(
            desc_url@,
            info.server@,
            info.unique_device_name@,
            info.device_type@,
            cache_max_age as nat,
        ),
{
    SSDPPacket::Alive {
        desc_url: desc_url.clone(),
        server_ua: info.server,
        unique_device_name: info.unique_device_name,
        device_type: info.device_type,
        cache_max_age,
    }
}

/// Builds the unicast answer to a discovery request, dated `date`.
pub fn ok_packet(
    desc_url: &String,
    info: EndpointInfo,
    cache_max_age: usize,
    date: DateParts,
) -> (r: SSDPPacket)
    requires
        date.wf(),
    ensures
        r is SearchOk,
        r.wf(),
        r.wire_chars() == ok_chars(
            desc_url@,
            info.server@,
            info.unique_device_name@,
            info.device_type@,
            cache_max_age as nat,
            date,
        ),
{
    SSDPPacket::SearchOk {
        desc_url: desc_url.clone(),
        server_ua: info.server,
        unique_device_name: info.unique_device_name,
        device_type: info.device_type,
        cache_max_age,
        date,
    }
}

/// Builds the multicast withdrawal for the endpoint.
pub fn byebye_packet(info: EndpointInfo) -> (r: SSDPPacket)
    ensures
        r is ByeBye,
        r.wf(),
        r.wire_chars() == byebye_chars(info.unique_device_name@, info.device_type@),
{
    SSDPPacket::ByeBye {
        unique_device_name: info.unique_device_name,
        device_type: info.device_type,
    }
}

} // verus!
