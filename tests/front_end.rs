use omic::message::Request;
use omic::socket::{socket_path, Socket, SocketRequestBuilder};
use omic::stream::create_stream;

#[test]
fn socket_path_prefers_runtime_dir() {
    assert_eq!(socket_path(Some("/run/user/1000"), Some("/home/u")), "/run/user/1000/omic-socket");
}

#[test]
fn socket_path_falls_back_to_home_then_tmp() {
    assert_eq!(socket_path(None, Some("/home/u")), "/home/u/.omic-socket");
    assert_eq!(socket_path(None, None), "/tmp/.omic-socket");
}

#[test]
fn builder_defaults_to_status() {
    assert_eq!(Socket::create_request().into_request(), Request::Status);
    assert_eq!(SocketRequestBuilder::default().into_request(), Request::Status);
    assert_eq!(Request::default(), Request::Status);
}

#[test]
fn builder_keeps_last_request() {
    let r = Socket::create_request()
        .request(Request::Disconnect)
        .request(Request::Connect { address: "10.0.0.5".to_string(), port: "9000".to_string() })
        .into_request();
    assert_eq!(r, Request::Connect { address: "10.0.0.5".to_string(), port: "9000".to_string() });
}

#[test]
fn stream_is_a_mono_audio_source() {
    let s = create_stream();
    assert_eq!(s.name, "omic");
    let props: Vec<(&str, &str)> =
        s.properties.iter().map(|(k, v)| (k.as_str(), v.as_str())).collect();
    assert_eq!(
        props,
        vec![
            ("media.class", "Audio/Source"),
            ("node.name", "omic"),
            ("audio.channels", "1"),
            ("node.channel-names", "1"),
        ]
    );
}
