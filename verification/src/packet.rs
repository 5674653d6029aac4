//! The SSDP packet codec: the three message kinds and their exact wire
//! text. Consumer devices are strict about header casing and order, so
//! the contracts pin every byte of the output.

use vstd::prelude::*;

use crate::date::{append_rfc2822, rfc2822_chars, DateParts};
use crate::digits::{append_decimal, dec_chars};

verus! {

/// One SSDP message, immutable once constructed, alive only for the
/// duration of one send. `Alive` is the periodic multicast
/// announcement, `SearchOk` the unicast `200 OK` answer to a discovery
/// request, and `ByeBye` the multicast withdrawal.
pub enum SSDPPacket {
    Alive {
        desc_url: String,
        server_ua: String,
        unique_device_name: String,
        device_type: String,
        cache_max_age: usize,
    },
    SearchOk {
        desc_url: String,
        server_ua: String,
        unique_device_name: String,
        device_type: String,
        cache_max_age: usize,
        date: DateParts,
    },
    ByeBye {
        unique_device_name: String,
        device_type: String,
    },
}

/// The wire text of an `Alive` announcement.
pub open spec fn alive_chars(
    desc_url: Seq<char>,
    server_ua: Seq<char>,
    udn: Seq<char>,
    device_type: Seq<char>,
    cache_max_age: nat,
) -> Seq<char> {
    "NOTIFY * HTTP/1.1\r\nHOST:239.255.255.250:1900\r\nCACHE-CONTROL:max-age="@ + dec_chars(
        cache_max_age,
    ) + "\r\nLOCATION:"@ + desc_url + "\r\nSERVER: "@ + server_ua + "\r\nNT:"@ + device_type
        + "\r\nUSN:"@ + udn + "::"@ + device_type + "\r\nNTS:ssdp:alive\r\n\r\n"@
}

/// The wire text of an `Ok` search response.
pub open spec fn ok_chars(
    desc_url: Seq<char>,
    server_ua: Seq<char>,
    udn: Seq<char>,
    device_type: Seq<char>,
    cache_max_age: nat,
    date: DateParts,
) -> Seq<char> {
    "HTTP/1.1 200 OK\r\nCACHE-CONTROL:max-age="@ + dec_chars(cache_max_age) + "\r\nDATE: "@
        + rfc2822_chars(date) + "\r\nST: "@ + device_type + "\r\nUSN:"@ + udn + "::"@ + device_type
        + "\r\nEXT:\r\nSERVER: "@ + server_ua + "\r\nLOCATION:"@ + desc_url
        + "\r\nContent-Length: 0\r\n\r\n"@
}

/// The wire text of a `ByeBye` withdrawal.
pub open spec fn byebye_chars(udn: Seq<char>, device_type: Seq<char>) -> Seq<char> {
    "NOTIFY * HTTP/1.1\r\nHOST:239.255.255.250:1900\r\nNT:"@ + device_type + "\r\nUSN:"@ + udn
        + "::"@ + device_type + "\r\nNTS:ssdp:byebye\r\n\r\n"@
}

impl SSDPPacket {
    /// The exact wire text of this packet.
    pub open spec fn wire_chars(self) -> Seq<char> {
        match self {
            SSDPPacket::Alive { desc_url, server_ua, unique_device_name, device_type, cache_max_age } =>
                alive_chars(desc_url@, server_ua@, unique_device_name@, device_type@, cache_max_age as nat),
            SSDPPacket::SearchOk { desc_url, server_ua, unique_device_name, device_type, cache_max_age, date } =>
                ok_chars(desc_url@, server_ua@, unique_device_name@, device_type@, cache_max_age as nat, date),
            SSDPPacket::ByeBye { unique_device_name, device_type } =>
                byebye_chars(unique_device_name@, device_type@),
        }
    }

    /// A packet is well-formed when the date it may carry is.
    pub open spec fn wf(self) -> bool {
        match self {
            SSDPPacket::SearchOk { date, .. } => date.wf(),
            _ => true,
        }
    }

    /// Renders this packet to its wire text: literal, case-preserving
    /// header lines, each CRLF-terminated, closed by a blank line.
    pub fn render(&self) -> (r: String)
        requires
            self.wf(),
        ensures
            r@ == self.wire_chars(),
    {
        let mut out = String::new();
        match self {
            SSDPPacket::Alive { desc_url, server_ua, unique_device_name, device_type, cache_max_age } => {
                out.append("NOTIFY * HTTP/1.1\r\nHOST:239.255.255.250:1900\r\nCACHE-CONTROL:max-age=");
                append_decimal(&mut out, *cache_max_age as u64);
                out.append("\r\nLOCATION:");
                out.append(desc_url.as_str());
                out.append("\r\nSERVER: ");
                out.append(server_ua.as_str());
                out.append("\r\nNT:");
                out.append(device_type.as_str());
                out.append("\r\nUSN:");
                out.append(unique_device_name.as_str());
                out.append("::");
                out.append(device_type.as_str());
                out.append("\r\nNTS:ssdp:alive\r\n\r\n");
                proof {
                    assert(out@ =~= self.wire_chars());
                }
            },
            SSDPPacket::SearchOk { desc_url, server_ua, unique_device_name, device_type, cache_max_age, date } => {
                out.append("HTTP/1.1 200 OK\r\nCACHE-CONTROL:max-age=");
                append_decimal(&mut out, *cache_max_age as u64);
                out.append("\r\nDATE: ");
                append_rfc2822(&mut out, date);
                out.append("\r\nST: ");
                out.append(device_type.as_str());
                out.append("\r\nUSN:");
                out.append(unique_device_name.as_str());
                out.append("::");
                out.append(device_type.as_str());
                out.append("\r\nEXT:\r\nSERVER: ");
                out.append(server_ua.as_str());
                out.append("\r\nLOCATION:");
                out.append(desc_url.as_str());
                out.append("\r\nContent-Length: 0\r\n\r\n");
                proof {
                    assert(out@ =~= self.wire_chars());
                }
            },
            SSDPPacket::ByeBye { unique_device_name, device_type } => {
                out.append("NOTIFY * HTTP/1.1\r\nHOST:239.255.255.250:1900\r\nNT:");
                out.append(device_type.as_str());
                out.append("\r\nUSN:");
                out.append(unique_device_name.as_str());
                out.append("::");
                out.append(device_type.as_str());
                out.append("\r\nNTS:ssdp:byebye\r\n\r\n");
                proof {
                    assert(out@ =~= self.wire_chars());
                }
            },
        }
        out
    }
}

} // verus!
