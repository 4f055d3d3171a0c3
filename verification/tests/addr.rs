use beetle::addr::{addr_error, classify_addr, grpc_addr_text, AddrText};

#[test]
fn grpc_addresses_keep_their_part() {
    assert_eq!(
        classify_addr("grpc://198.168.2.1:1234"),
        AddrText::Grpc("198.168.2.1:1234".to_string())
    );
    assert_eq!(classify_addr("grpc:///foo/bar"), AddrText::Grpc("/foo/bar".to_string()));
    assert_eq!(classify_addr("grpc://"), AddrText::Grpc(String::new()));
    assert_eq!(classify_addr("grpc://a://b"), AddrText::Grpc("a".to_string()));
}

#[test]
fn other_texts_are_not_addresses() {
    assert_eq!(classify_addr("mem"), AddrText::Mem);
    assert_eq!(classify_addr("grpc"), AddrText::Invalid);
    assert_eq!(classify_addr("http://127.0.0.1:80"), AddrText::Invalid);
    assert_eq!(classify_addr("GRPC://x"), AddrText::Invalid);
    assert_eq!(classify_addr(""), AddrText::Invalid);
}

#[test]
fn grpc_text_reads_back() {
    for part in ["198.168.2.1:1234", "/foo/bar", "[::1]:4400"] {
        let text = grpc_addr_text(part);
        assert_eq!(text, format!("grpc://{}", part));
        assert_eq!(classify_addr(&text), AddrText::Grpc(part.to_string()));
    }
}

#[test]
fn texts_that_are_no_address_get_messages() {
    assert_eq!(addr_error("mem"), "memory addresses can not be serialized or deserialized");
    assert_eq!(addr_error("http://x"), "invalid addr: http://x");
    assert_eq!(addr_error(""), "invalid addr: ");
}
