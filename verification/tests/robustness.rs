//! Generated texts, to see that whatever the library hands to the text
//! parser is answered with record data or with a refusal.

use std::str::FromStr;

use dns_dispatch::rdata_text::{MAX_LIST_TEXT, MAX_RDATA_TEXT};
use dns_dispatch::{prepare_request, record_set_from, Command, QueryOpt};
use trust_dns_client::rr::{DNSClass, Name, RecordType};

const WORDS: &[&str] = &[
    "0", "1", "9", "10", "255", "256", "999", "1000", "65535", "65536", "2147483647",
    "2147483648", "3999999999", "4000000000", "4294967295", "4294967296",
    "99999999999999999999", "a", "A", "z", "ns1", "example", "com", "xn--", "xn--a",
    "xn--nxasmq6b", "xn--80ak6aa92e", ".", "..", "-", "_", "*", "\\", "\\.", "\\000", "\\255",
    "\\999", "\"", "(", ")", ";", "=", ",", ",,", "@", "$", "$TTL", "$ORIGIN", " ", " ", " ",
    "\t", "\n", "\r\n", "\u{e9}", "\u{4e2d}", "\u{1f600}", "\u{301}", "\u{0}", "\u{7f}",
    "\u{200b}", "h", "s", "m", "d", "w", "W", "1h", "999w", "1w2d3h4m5s", "key0", "key1",
    "key65280", "key65535", "alpn", "alpn=", "alpn=h2", "mandatory", "port", "ipv4hint",
    "ipv6hint", "echconfig", "no-default-alpn", "issue", "issuewild", "iodef", "https://a.b/",
    "mailto:a@b", "::1", "1.2.3.4", "ff", "QUJD", "QUJDRA==", "/", "+", ":", "NS", "AAAA", "ANY",
    "TYPE1", "'", "#", "[", "~", "!",
];

const HEADS: &[&str] = &[
    "", "", "1 ", "1 1 ", "1 1 1 ", "a. b. ", "a. b. 1 ", "a. b. 1 1 1 1 ", "0 issue ",
    "0 iodef ", "128 tag ", "1 . ", "0 a. ", "1 . alpn=", "(", "\"",
];

fn types() -> Vec<RecordType> {
    vec![
        RecordType::A,
        RecordType::AAAA,
        RecordType::ANAME,
        RecordType::ANY,
        RecordType::CAA,
        RecordType::CNAME,
        RecordType::CSYNC,
        RecordType::DNSKEY,
        RecordType::DS,
        RecordType::HINFO,
        RecordType::HTTPS,
        RecordType::MX,
        RecordType::NAPTR,
        RecordType::NS,
        RecordType::NULL,
        RecordType::OPENPGPKEY,
        RecordType::PTR,
        RecordType::SOA,
        RecordType::SRV,
        RecordType::SSHFP,
        RecordType::SVCB,
        RecordType::TLSA,
        RecordType::TXT,
        RecordType::ZERO,
        RecordType::Unknown(999),
    ]
}

fn next(state: &mut u64) -> usize {
    *state = state.wrapping_mul(6364136223846793005).wrapping_add(1442695040888963407);
    (*state >> 33) as usize
}

fn generated(state: &mut u64) -> String {
    let mut text = HEADS[next(state) % HEADS.len()].to_string();
    for _ in 0..next(state) % 9 {
        text.push_str(WORDS[next(state) % WORDS.len()]);
        if next(state) % 3 == 0 {
            text.push(' ');
        }
    }
    text
}

fn try_all(texts: &[String]) -> usize {
    let name = Name::from_str("generated.example.").unwrap();
    let mut built = 0;
    for ty in types() {
        for text in texts {
            let texts = vec![text.clone()];
            if record_set_from(name.clone(), DNSClass::IN, ty, 0, texts).is_ok() {
                built += 1;
            }
        }
    }
    built
}

#[test]
fn generated_texts_are_answered() {
    let mut state = 2024;
    let texts: Vec<String> = (0..4000).map(|_| generated(&mut state)).collect();
    assert!(try_all(&texts) > 4000);
}

#[test]
fn generated_texts_without_spaces_are_answered() {
    let mut state = 7;
    let texts: Vec<String> = (0..4000).map(|_| generated(&mut state).replace(' ', "")).collect();
    assert!(try_all(&texts) > 1000);
}

#[test]
fn the_longest_texts_are_answered() {
    let mut texts = Vec::new();
    for unit in [
        "a", "a ", "\"a\"", "\"\"", ";", "a;", "a\n", ";\n", "a;\n", "\r", "\n", " ", "@", "$",
        "$A", ")", "\\a", "\"\\a\"", "\"\\000\"", ".", "a.", "9", "=", ",",
    ] {
        for head in HEADS {
            let mut text = head.to_string();
            while text.chars().count() + unit.chars().count() <= MAX_RDATA_TEXT {
                text.push_str(unit);
            }
            if !text.contains('(') {
                texts.push(text);
            }
            let mut list = format!("{head}(");
            while list.chars().count() + unit.chars().count() <= MAX_LIST_TEXT {
                list.push_str(unit);
            }
            texts.push(list);
        }
    }
    try_all(&texts);
}

#[test]
fn generated_names_are_announced() {
    let mut state = 99;
    let mut announced = 0;
    for _ in 0..20000 {
        let text = generated(&mut state).replace(' ', ".");
        if let Ok(name) = Name::from_str(&text) {
            let ty = RecordType::from((next(&mut state) % 70000) as u16);
            let command = Command::Query(QueryOpt { name, ty });
            let prepared = prepare_request(DNSClass::CH, None, command).unwrap();
            assert!(prepared.summary.starts_with("; sending query: "));
            announced += 1;
        }
    }
    assert!(announced > 100);
}
