use bincode::{decode_from_slice, encode_into_slice};
use cloneable_errors::SharedString;

#[test]
fn shared_string_decoding_static() {
    let config = bincode::config::standard();
    // static shared string
    let string = SharedString::Static("helo");
    let mut buf = [0u8; 5];

    encode_into_slice(string.as_str(), &mut buf, config).unwrap();
    let text: String = decode_from_slice(&buf, config).unwrap().0;
    let decoded = SharedString::from(text);

    match decoded {
        SharedString::Arc(s) => assert_eq!(&*s, "helo"),
        x => panic!("Expected SharedString::Arc(\"helo\"), got {x:?}"),
    }
}

#[test]
fn shared_string_decoding_arc() {
    let config = bincode::config::standard();
    // shared string behind a reference count
    let string = SharedString::Arc("helo".into());
    let mut buf = [0u8; 5];

    encode_into_slice(string.as_str(), &mut buf, config).unwrap();
    let text: String = decode_from_slice(&buf, config).unwrap().0;
    let decoded = SharedString::from(text);

    match decoded {
        SharedString::Arc(s) => assert_eq!(&*s, "helo"),
        x => panic!("Expected SharedString::Arc(\"helo\"), got {x:?}"),
    }
}
