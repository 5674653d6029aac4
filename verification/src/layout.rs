//! Line structure of the rendered packets: the wire text of each
//! message is a sequence of CRLF-terminated lines whose headers stand
//! in a fixed order, closed by a blank line. The proofs here tie the
//! flat wire text of the codec to that line structure.

use vstd::prelude::*;

use crate::date::{rfc2822_chars, DateParts};
use crate::digits::dec_chars;
use crate::packet::{alive_chars, ok_chars};

verus! {

/// Every line, CRLF-terminated, in order.
pub open spec fn crlf_join(lines: Seq<Seq<char>>) -> Seq<char>
    decreases lines.len(),
{
    if lines.len() == 0 {
        Seq::empty()
    } else {
        lines.first() + "\r\n"@ + crlf_join(lines.drop_first())
    }
}

/// `s` begins with `p`.
pub open spec fn starts_with(s: Seq<char>, p: Seq<char>) -> bool {
    p.len() <= s.len() && s.subrange(0, p.len() as int) == p
}

/// The lines of an `Alive` announcement; the last, empty line is the
/// blank line that terminates the message.
pub open spec fn alive_lines(
    desc_url: Seq<char>,
    server_ua: Seq<char>,
    udn: Seq<char>,
    device_type: Seq<char>,
    cache_max_age: nat,
) -> Seq<Seq<char>> {
    seq![
        "NOTIFY * HTTP/1.1"@,
        "HOST:239.255.255.250:1900"@,
        "CACHE-CONTROL:max-age="@ + dec_chars(cache_max_age),
        "LOCATION:"@ + desc_url,
        "SERVER: "@ + server_ua,
        "NT:"@ + device_type,
        "USN:"@ + udn + "::"@ + device_type,
        "NTS:ssdp:alive"@,
        Seq::<char>::empty(),
    ]
}

/// The lines of an `Ok` search response; the last, empty line is the
/// blank line that terminates the message.
pub open spec fn ok_lines(
    desc_url: Seq<char>,
    server_ua: Seq<char>,
    udn: Seq<char>,
    device_type: Seq<char>,
    cache_max_age: nat,
    date: DateParts,
) -> Seq<Seq<char>> {
    seq![
        "HTTP/1.1 200 OK"@,
        "CACHE-CONTROL:max-age="@ + dec_chars(cache_max_age),
        "DATE: "@ + rfc2822_chars(date),
        "ST: "@ + device_type,
        "USN:"@ + udn + "::"@ + device_type,
        "EXT:"@,
        "SERVER: "@ + server_ua,
        "LOCATION:"@ + desc_url,
        "Content-Length: 0"@,
        Seq::<char>::empty(),
    ]
}

proof fn lemma_crlf_join_step(lines: Seq<Seq<char>>, k: int)
    requires
        0 <= k < lines.len(),
    ensures
        crlf_join(lines.subrange(k, lines.len() as int)) == lines[k] + "\r\n"@ + crlf_join(
            lines.subrange(k + 1, lines.len() as int),
        ),
{
    let suffix = lines.subrange(k, lines.len() as int);
    assert(suffix.drop_first() =~= lines.subrange(k + 1, lines.len() as int));
    assert(suffix.first() == lines[k]);
}

/// The wire text of an `Alive` announcement is its lines, in order,
/// each CRLF-terminated, with the HOST, CACHE-CONTROL, LOCATION,
/// SERVER, NT, USN and NTS:ssdp:alive headers in that order, ending in
/// a blank line.
#[verifier::rlimit(60)]
pub proof fn lemma_alive_wire_layout(
    desc_url: Seq<char>,
    server_ua: Seq<char>,
    udn: Seq<char>,
    device_type: Seq<char>,
    cache_max_age: nat,
)
    ensures
        alive_chars(desc_url, server_ua, udn, device_type, cache_max_age) == crlf_join(
            alive_lines(desc_url, server_ua, udn, device_type, cache_max_age),
        ),
        alive_lines(desc_url, server_ua, udn, device_type, cache_max_age).len() == 9,
        starts_with(alive_lines(desc_url, server_ua, udn, device_type, cache_max_age)[1], "HOST"@),
        starts_with(
            alive_lines(desc_url, server_ua, udn, device_type, cache_max_age)[2],
            "CACHE-CONTROL"@,
        ),
        starts_with(
            alive_lines(desc_url, server_ua, udn, device_type, cache_max_age)[3],
            "LOCATION"@,
        ),
        starts_with(
            alive_lines(desc_url, server_ua, udn, device_type, cache_max_age)[4],
            "SERVER"@,
        ),
        starts_with(alive_lines(desc_url, server_ua, udn, device_type, cache_max_age)[5], "NT"@),
        starts_with(alive_lines(desc_url, server_ua, udn, device_type, cache_max_age)[6], "USN"@),
        alive_lines(desc_url, server_ua, udn, device_type, cache_max_age)[7] == "NTS:ssdp:alive"@,
        alive_lines(desc_url, server_ua, udn, device_type, cache_max_age)[8].len() == 0,
        alive_chars(desc_url, server_ua, udn, device_type, cache_max_age).len() >= 4,
        alive_chars(desc_url, server_ua, udn, device_type, cache_max_age).subrange(
            alive_chars(desc_url, server_ua, udn, device_type, cache_max_age).len() - 4,
            alive_chars(desc_url, server_ua, udn, device_type, cache_max_age).len() as int,
        ) == "\r\n\r\n"@,
{
    let lines = alive_lines(desc_url, server_ua, udn, device_type, cache_max_age);
    reveal_strlit("NOTIFY * HTTP/1.1\r\nHOST:239.255.255.250:1900\r\nCACHE-CONTROL:max-age=");
    reveal_strlit("\r\nLOCATION:");
    reveal_strlit("\r\nSERVER: ");
    reveal_strlit("\r\nNT:");
    reveal_strlit("\r\nUSN:");
    reveal_strlit("::");
    reveal_strlit("\r\nNTS:ssdp:alive\r\n\r\n");
    reveal_strlit("NOTIFY * HTTP/1.1");
    reveal_strlit("HOST:239.255.255.250:1900");
    reveal_strlit("CACHE-CONTROL:max-age=");
    reveal_strlit("LOCATION:");
    reveal_strlit("SERVER: ");
    reveal_strlit("NT:");
    reveal_strlit("USN:");
    reveal_strlit("NTS:ssdp:alive");
    reveal_strlit("\r\n");
    reveal_strlit("HOST");
    reveal_strlit("CACHE-CONTROL");
    reveal_strlit("LOCATION");
    reveal_strlit("SERVER");
    reveal_strlit("NT");
    reveal_strlit("USN");
    assert(lines.subrange(0, 9) =~= lines);
    lemma_crlf_join_step(lines, 0);
    lemma_crlf_join_step(lines, 1);
    lemma_crlf_join_step(lines, 2);
    lemma_crlf_join_step(lines, 3);
    lemma_crlf_join_step(lines, 4);
    lemma_crlf_join_step(lines, 5);
    lemma_crlf_join_step(lines, 6);
    lemma_crlf_join_step(lines, 7);
    lemma_crlf_join_step(lines, 8);
    assert(lines.subrange(9, 9) =~= Seq::<Seq<char>>::empty());
    assert(crlf_join(lines.subrange(9, 9)) =~= Seq::<char>::empty());
    assert(alive_chars(desc_url, server_ua, udn, device_type, cache_max_age) =~= crlf_join(lines));
    assert(starts_with(lines[1], "HOST"@)) by {
        assert(lines[1].subrange(0, 4) =~= "HOST"@);
    }
    assert(starts_with(lines[2], "CACHE-CONTROL"@)) by {
        assert(lines[2].subrange(0, 13) =~= "CACHE-CONTROL"@);
    }
    assert(starts_with(lines[3], "LOCATION"@)) by {
        assert(lines[3].subrange(0, 8) =~= "LOCATION"@);
    }
    assert(starts_with(lines[4], "SERVER"@)) by {
        assert(lines[4].subrange(0, 6) =~= "SERVER"@);
    }
    assert(starts_with(lines[5], "NT"@)) by {
        assert(lines[5].subrange(0, 2) =~= "NT"@);
    }
    assert(starts_with(lines[6], "USN"@)) by {
        assert(lines[6].subrange(0, 3) =~= "USN"@);
    }
    reveal_strlit("\r\n\r\n");
    let text = alive_chars(desc_url, server_ua, udn, device_type, cache_max_age);
    assert(text.subrange(text.len() - 4, text.len() as int) =~= "\r\n\r\n"@);
}

/// The wire text of an `Ok` search response is its lines, in order,
/// each CRLF-terminated, and carries a DATE header whose value is the
/// RFC 2822 date text, which always ends in ` GMT`.
#[verifier::rlimit(60)]
pub proof fn lemma_ok_wire_layout(
    desc_url: Seq<char>,
    server_ua: Seq<char>,
    udn: Seq<char>,
    device_type: Seq<char>,
    cache_max_age: nat,
    date: DateParts,
)
    requires
        date.wf(),
    ensures
        ok_chars(desc_url, server_ua, udn, device_type, cache_max_age, date) == crlf_join(
            ok_lines(desc_url, server_ua, udn, device_type, cache_max_age, date),
        ),
        ok_lines(desc_url, server_ua, udn, device_type, cache_max_age, date).len() == 10,
        ok_lines(desc_url, server_ua, udn, device_type, cache_max_age, date)[2] == "DATE: "@
            + rfc2822_chars(date),
        rfc2822_chars(date).len() >= 4,
        rfc2822_chars(date).subrange(
            rfc2822_chars(date).len() - 4,
            rfc2822_chars(date).len() as int,
        ) == " GMT"@,
        ok_lines(desc_url, server_ua, udn, device_type, cache_max_age, date)[9].len() == 0,
        ok_chars(desc_url, server_ua, udn, device_type, cache_max_age, date).len() >= 4,
        ok_chars(desc_url, server_ua, udn, device_type, cache_max_age, date).subrange(
            ok_chars(desc_url, server_ua, udn, device_type, cache_max_age, date).len() - 4,
            ok_chars(desc_url, server_ua, udn, device_type, cache_max_age, date).len() as int,
        ) == "\r\n\r\n"@,
{
    let lines = ok_lines(desc_url, server_ua, udn, device_type, cache_max_age, date);
    reveal_strlit("HTTP/1.1 200 OK\r\nCACHE-CONTROL:max-age=");
    reveal_strlit("\r\nDATE: ");
    reveal_strlit("\r\nST: ");
    reveal_strlit("\r\nUSN:");
    reveal_strlit("::");
    reveal_strlit("\r\nEXT:\r\nSERVER: ");
    reveal_strlit("\r\nLOCATION:");
    reveal_strlit("\r\nContent-Length: 0\r\n\r\n");
    reveal_strlit("HTTP/1.1 200 OK");
    reveal_strlit("CACHE-CONTROL:max-age=");
    reveal_strlit("DATE: ");
    reveal_strlit("ST: ");
    reveal_strlit("USN:");
    reveal_strlit("EXT:");
    reveal_strlit("SERVER: ");
    reveal_strlit("LOCATION:");
    reveal_strlit("Content-Length: 0");
    reveal_strlit("\r\n");
    assert(lines.subrange(0, 10) =~= lines);
    lemma_crlf_join_step(lines, 0);
    lemma_crlf_join_step(lines, 1);
    lemma_crlf_join_step(lines, 2);
    lemma_crlf_join_step(lines, 3);
    lemma_crlf_join_step(lines, 4);
    lemma_crlf_join_step(lines, 5);
    lemma_crlf_join_step(lines, 6);
    lemma_crlf_join_step(lines, 7);
    lemma_crlf_join_step(lines, 8);
    lemma_crlf_join_step(lines, 9);
    assert(lines.subrange(10, 10) =~= Seq::<Seq<char>>::empty());
    assert(crlf_join(lines.subrange(10, 10)) =~= Seq::<char>::empty());
    assert(ok_chars(desc_url, server_ua, udn, device_type, cache_max_age, date) =~= crlf_join(
        lines,
    ));
    crate::date::lemma_rfc2822_ends_in_gmt(date);
    reveal_strlit("\r\n\r\n");
    let text = ok_chars(desc_url, server_ua, udn, device_type, cache_max_age, date);
    assert(text.subrange(text.len() - 4, text.len() as int) =~= "\r\n\r\n"@);
}

} // verus!
