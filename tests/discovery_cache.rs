use ssdp::discovery::{Action, Discovery};
use ssdp::error::Error;
use ssdp::message::Message;
use ssdp::search::{msearch_packet, search_packets};

fn announce(method: &str, location: &str, age: u32, usn: &str, now: i64) -> Message {
    let raw = format!(
        "{} * HTTP/1.1\r\nLocation: {}\r\nCache-Control: max-age={}\r\nUSN: {}\r\n\r\n",
        method, location, age, usn
    );
    Message::parse_at(raw.as_bytes(), now).unwrap()
}

fn cached(now: i64) -> Discovery {
    let mut d = Discovery::new();
    d.fetched(announce("NOTIFY", "http://a/d.xml", 100, "uuid:abc", now), "<root/>".to_owned());
    d
}

#[test]
fn older_announcement_with_same_location_is_dropped() {
    let d = cached(1000);
    let m = announce("NOTIFY", "http://a/d.xml", 100, "uuid:abc", 900);
    assert!(!d.has_cache_expired(&m));
    assert_eq!(d.on_receive(&Ok(m)), Action::Ignore);
    let same = announce("NOTIFY", "http://a/d.xml", 100, "uuid:abc", 1000);
    assert_eq!(d.on_receive(&Ok(same)), Action::Ignore);
}

#[test]
fn later_or_moved_announcement_is_fetched() {
    let mut d = cached(1000);
    let later = announce("NOTIFY", "http://a/d.xml", 100, "uuid:abc", 1001);
    assert_eq!(d.on_receive(&Ok(later.duplicate())), Action::Fetch);
    let moved = announce("NOTIFY", "http://b/d.xml", 100, "uuid:abc", 900);
    assert_eq!(d.on_receive(&Ok(moved)), Action::Fetch);
    let other = announce("NOTIFY", "http://a/d.xml", 100, "uuid:other", 900);
    assert_eq!(d.on_receive(&Ok(other)), Action::Fetch);
    d.fetched(later, "<new/>".to_owned());
    assert_eq!(d.cache_len(), 1);
    d.read(0).unwrap();
    let (m, desc) = d.read(0).unwrap().unwrap();
    assert_eq!(m.ext.expires, 1101);
    assert_eq!(desc, "<new/>");
}

#[test]
fn search_probes_and_errors_are_not_fetched() {
    let d = Discovery::new();
    let probe = announce("M-SEARCH", "http://a/d.xml", 100, "uuid:abc", 0);
    assert_eq!(d.on_receive(&Ok(probe)), Action::Ignore);
    assert_eq!(d.on_receive(&Err(Error::InvalidFormat)), Action::Ignore);
    let io = std::io::Error::new(std::io::ErrorKind::Other, "socket closed");
    assert_eq!(d.on_receive(&Err(Error::IOError(io))), Action::Halt);
}

#[test]
fn malformed_packet_leaves_the_cache_alone() {
    let d = cached(1000);
    let r = Message::parse_at(b"NOTIFY * HTTP/1.1\r\nLocation: http://a/d", 1000);
    assert!(matches!(r, Err(Error::InvalidFormat)));
    assert_eq!(d.on_receive(&r), Action::Ignore);
    assert_eq!(d.cache_len(), 1);
    assert_eq!(d.pending(), 1);
}

#[test]
fn read_prunes_expired_entries() {
    let mut d = Discovery::new();
    d.fetched(announce("NOTIFY", "http://a/d.xml", 10, "uuid:old", 0), "a".to_owned());
    d.fetched(announce("NOTIFY", "http://b/d.xml", 1000, "uuid:new", 0), "b".to_owned());
    let (m, desc) = d.read(500).unwrap().unwrap();
    assert_eq!(m.ext.usn, "uuid:old");
    assert_eq!(desc, "a");
    assert_eq!(d.cache_len(), 1);
    assert!(!d.contains(&"uuid:old".to_owned()));
    assert!(d.contains(&"uuid:new".to_owned()));
    assert!(d.read(500).unwrap().is_some());
}

#[test]
fn each_ready_item_is_read_once() {
    let mut d = Discovery::new();
    d.fetched(announce("NOTIFY", "http://a/d.xml", 100, "uuid:1", 0), "a".to_owned());
    d.fetched(announce("NOTIFY", "http://b/d.xml", 100, "uuid:2", 0), "b".to_owned());
    let first = d.read(0).unwrap().unwrap();
    let second = d.read(0).unwrap().unwrap();
    assert_eq!(first.0.ext.usn, "uuid:1");
    assert_eq!(second.0.ext.usn, "uuid:2");
    assert!(d.read(0).is_none());
    assert_eq!(d.pending(), 0);
}

#[test]
fn stop_ends_the_stream_for_one_reader() {
    let mut d = cached(0);
    d.stop();
    assert!(d.read(0).unwrap().is_some());
    assert!(d.read(0).unwrap().is_none());
    assert!(d.read(0).is_none());
}

#[test]
fn entry_gone_before_read_gives_nothing() {
    let mut d = Discovery::new();
    d.fetched(announce("NOTIFY", "http://a/d.xml", 10, "uuid:a", 0), "a".to_owned());
    d.fetched(announce("NOTIFY", "http://b/d.xml", 10, "uuid:b", 0), "b".to_owned());
    assert!(d.read(100).unwrap().is_some());
    assert_eq!(d.cache_len(), 0);
    assert!(d.read(100).unwrap().is_none());
}

#[test]
fn end_to_end_notify_then_read_then_expire() {
    let raw = b"NOTIFY * HTTP/1.1\r\nHOST: 239.255.255.250:1900\r\nLocation: http://10.0.0.5:80/desc.xml\r\nCache-Control: max-age=1800\r\nUSN: uuid:abc\r\n\r\n";
    let mut d = Discovery::new();
    let received = Message::parse_at(raw, 5000);
    assert_eq!(d.on_receive(&received), Action::Fetch);
    d.fetched(received.unwrap(), "<root/>".to_owned());
    let (m, desc) = d.read(5000).unwrap().unwrap();
    assert_eq!(m.ext.location, "http://10.0.0.5:80/desc.xml");
    assert_eq!(desc, "<root/>");
    assert!(d.contains(&"uuid:abc".to_owned()));
    d.clear_cache_expired(6801);
    assert!(!d.contains(&"uuid:abc".to_owned()));
}

#[test]
fn refresh_replaces_the_entry() {
    let mut d = cached(0);
    d.update_cache(announce("NOTIFY", "http://z/d.xml", 5, "uuid:abc", 50), "z".to_owned());
    assert_eq!(d.cache_len(), 1);
    assert_eq!(d.pending(), 1);
    let (m, desc) = d.read(0).unwrap().unwrap();
    assert_eq!(m.ext.location, "http://z/d.xml");
    assert_eq!(desc, "z");
}

#[test]
fn search_sends_three_probes_for_the_target() {
    let ps = search_packets(Some("ssdp:all".to_owned()), Some(3));
    assert_eq!(ps.len(), 3);
    for p in &ps {
        assert!(p.contains("\r\nST: ssdp:all\r\n"));
        assert!(p.starts_with("M-SEARCH * HTTP/1.1\r\n"));
    }
    assert_eq!(search_packets(None, None).len(), 3);
    assert!(search_packets(None, None)[0].contains("ST: ssdp:all\r\n"));
    assert_eq!(search_packets(Some("x".to_owned()), Some(0)).len(), 0);
}

#[test]
fn probe_text_is_exact() {
    assert_eq!(
        msearch_packet("upnp:rootdevice"),
        "M-SEARCH * HTTP/1.1\r\nHOST: 239.255.255.250:1900\r\nMAIN: \"ssdp:discover\"\r\nST: upnp:rootdevice\r\nUSER-AGENT: Linux/2.2 UPnP/1.1 ssdp/0.1.0\r\n\r\n"
    );
}
