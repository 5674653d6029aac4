use dlnaproxy::config::cache_max_age;
use dlnaproxy::date::{format_rfc2822, DateParts};
use dlnaproxy::endpoint::{alive_packet, byebye_packet, ok_packet, EndpointInfo};
use dlnaproxy::endpoint::server_banner_or_default;
use dlnaproxy::packet::SSDPPacket;

fn sample_date() -> DateParts {
    // 2003-07-01 was a Tuesday.
    DateParts { year: 2003, month: 7, day: 1, weekday: 2, hour: 10, minute: 52, second: 37 }
}

fn sample_info() -> EndpointInfo {
    EndpointInfo {
        device_type: "urn:schemas-upnp-org:device:MediaServer:1".to_string(),
        unique_device_name: "uuid:0011-2233".to_string(),
        server: "TestDLNA/2.1".to_string(),
    }
}

#[test]
fn cache_max_age_follows_the_formula() {
    assert_eq!(cache_max_age(5), 20);
    assert_eq!(cache_max_age(50), 100);
    assert_eq!(cache_max_age(895), 1790);
}

#[test]
fn cache_max_age_edges() {
    assert_eq!(cache_max_age(0), 20);
    assert_eq!(cache_max_age(10), 20);
    assert_eq!(cache_max_age(11), 22);
    assert_eq!(cache_max_age(15), 30);
}

#[test]
fn alive_renders_headers_in_order() {
    let packet = SSDPPacket::Alive {
        desc_url: "http://10.0.0.2:8200/rootDesc.xml".to_string(),
        server_ua: "TestDLNA/2.1".to_string(),
        unique_device_name: "uuid:0011-2233".to_string(),
        device_type: "urn:schemas-upnp-org:device:MediaServer:1".to_string(),
        cache_max_age: 1790,
    };
    let expected = "NOTIFY * HTTP/1.1\r\n\
        HOST:239.255.255.250:1900\r\n\
        CACHE-CONTROL:max-age=1790\r\n\
        LOCATION:http://10.0.0.2:8200/rootDesc.xml\r\n\
        SERVER: TestDLNA/2.1\r\n\
        NT:urn:schemas-upnp-org:device:MediaServer:1\r\n\
        USN:uuid:0011-2233::urn:schemas-upnp-org:device:MediaServer:1\r\n\
        NTS:ssdp:alive\r\n\
        \r\n";
    assert_eq!(packet.render(), expected);
}

#[test]
fn ok_renders_with_gmt_date() {
    let packet = SSDPPacket::SearchOk {
        desc_url: "http://10.0.0.2:8200/rootDesc.xml".to_string(),
        server_ua: "TestDLNA/2.1".to_string(),
        unique_device_name: "uuid:0011-2233".to_string(),
        device_type: "urn:schemas-upnp-org:device:MediaServer:1".to_string(),
        cache_max_age: 1790,
        date: sample_date(),
    };
    let expected = "HTTP/1.1 200 OK\r\n\
        CACHE-CONTROL:max-age=1790\r\n\
        DATE: Tue, 01 Jul 2003 10:52:37 GMT\r\n\
        ST: urn:schemas-upnp-org:device:MediaServer:1\r\n\
        USN:uuid:0011-2233::urn:schemas-upnp-org:device:MediaServer:1\r\n\
        EXT:\r\n\
        SERVER: TestDLNA/2.1\r\n\
        LOCATION:http://10.0.0.2:8200/rootDesc.xml\r\n\
        Content-Length: 0\r\n\
        \r\n";
    let rendered = packet.render();
    assert_eq!(rendered, expected);
    assert!(rendered.contains("DATE: Tue, 01 Jul 2003 10:52:37 GMT\r\n"));
    assert!(!rendered.contains("+0000"));
}

#[test]
fn byebye_renders_withdrawal() {
    let packet = SSDPPacket::ByeBye {
        unique_device_name: "uuid:0011-2233".to_string(),
        device_type: "urn:schemas-upnp-org:device:MediaServer:1".to_string(),
    };
    let expected = "NOTIFY * HTTP/1.1\r\n\
        HOST:239.255.255.250:1900\r\n\
        NT:urn:schemas-upnp-org:device:MediaServer:1\r\n\
        USN:uuid:0011-2233::urn:schemas-upnp-org:device:MediaServer:1\r\n\
        NTS:ssdp:byebye\r\n\
        \r\n";
    assert_eq!(packet.render(), expected);
}

#[test]
fn rfc2822_formats_exactly() {
    assert_eq!(format_rfc2822(&sample_date()), "Tue, 01 Jul 2003 10:52:37 GMT");
    let eve = DateParts { year: 1999, month: 12, day: 31, weekday: 5, hour: 23, minute: 59, second: 59 };
    assert_eq!(format_rfc2822(&eve), "Fri, 31 Dec 1999 23:59:59 GMT");
    let early = DateParts { year: 7, month: 1, day: 2, weekday: 0, hour: 0, minute: 0, second: 0 };
    assert_eq!(format_rfc2822(&early), "Sun, 02 Jan 0007 00:00:00 GMT");
}

#[test]
fn current_date_is_displayable() {
    let d = dlnaproxy::date::current_date();
    assert!((1..=12).contains(&d.month));
    assert!((1..=31).contains(&d.day));
    assert!(d.weekday < 7);
    assert!(d.hour < 24 && d.minute < 60 && d.second < 60);
    let text = format_rfc2822(&d);
    assert!(text.ends_with(" GMT"));
    assert_eq!(text.len(), "Tue, 01 Jul 2003 10:52:37 GMT".len());
    // The clock is far from its clamping bounds; the wrapper must have
    // handed a real year through.
    assert!(d.year >= 2020 && d.year <= 9999);
}

#[test]
fn packets_built_from_endpoint_info() {
    let url = "http://10.0.0.2:8200/rootDesc.xml".to_string();
    let alive = alive_packet(&url, sample_info(), 40);
    assert!(alive.render().contains("CACHE-CONTROL:max-age=40\r\n"));
    assert!(alive.render().contains("USN:uuid:0011-2233::urn:schemas-upnp-org:device:MediaServer:1\r\n"));

    let ok = ok_packet(&url, sample_info(), 40, sample_date());
    assert!(ok.render().starts_with("HTTP/1.1 200 OK\r\n"));
    assert!(ok.render().contains("DATE: Tue, 01 Jul 2003 10:52:37 GMT\r\n"));

    let bye = byebye_packet(sample_info());
    assert!(bye.render().contains("NTS:ssdp:byebye\r\n"));
    assert!(bye.render().ends_with("\r\n\r\n"));
}

#[test]
fn banner_defaults_when_absent() {
    assert_eq!(server_banner_or_default(None), "DLNAProxy/1.0");
    assert_eq!(server_banner_or_default(Some("MiniDLNA/1.3".to_string())), "MiniDLNA/1.3");
}
