use grpc::error::HttpError;
use grpc::rpc::{
    stream_item, stream_part, unary_reply, unary_result, GrpcError, GrpcStreaming, MethodDescriptor, ResponsePart,
    ServerServiceDefinition, StreamPump,
};

fn string_string_method(name: &str, streaming: GrpcStreaming) -> MethodDescriptor {
    MethodDescriptor { name: name.to_owned(), streaming }
}

fn single_method_server(name: &str, streaming: GrpcStreaming) -> ServerServiceDefinition {
    ServerServiceDefinition::new(vec![string_string_method(name, streaming)])
}

/// Runs a unary call in memory: dispatch, handler, reply, resolution.
fn call_unary<H: Fn(String) -> Result<String, GrpcError>>(
    server: &ServerServiceDefinition,
    name: &str,
    param: &str,
    handler: H,
) -> Result<String, GrpcError> {
    let parts = match server.dispatch(&name.to_owned()) {
        Ok(_) => unary_reply(handler(param.to_owned()).map(|s| s.into_bytes())),
        Err(status) => vec![status],
    };
    unary_result(parts[0].clone()).map(|b| String::from_utf8(b).unwrap())
}

#[test]
fn unary() {
    let server = single_method_server("/text/Unary", GrpcStreaming::Unary);
    let r = call_unary(&server, "/text/Unary", "aa", |s| Ok(s));
    assert_eq!("aa", r.unwrap());
}

#[test]
fn error_in_handler() {
    let server = single_method_server("/text/Unary", GrpcStreaming::Unary);
    let r = call_unary(&server, "/text/Unary", "aa", |_| Err(GrpcError::Other("my error".to_owned())));
    match r {
        Err(GrpcError::GrpcMessage(m)) => assert!(m.find("my error").is_some()),
        other => panic!("wrong result: {:?}", other),
    }
}

#[test]
fn panic_in_handler_is_reported_as_status() {
    let server = single_method_server("/text/Unary", GrpcStreaming::Unary);
    let r = call_unary(&server, "/text/Unary", "aa", |_| Err(GrpcError::Panic("icnap".to_owned())));
    match r {
        Err(GrpcError::GrpcMessage(m)) => assert!(m.find("Panic").is_some() && m.find("icnap").is_some()),
        other => panic!("wrong result: {:?}", other),
    }
}

#[test]
fn method_not_found_is_a_status() {
    let server = single_method_server("/text/Unary", GrpcStreaming::Unary);
    let r = call_unary(&server, "/does/not/matter", "aa", |s| Ok(s));
    assert_eq!(r, Err(GrpcError::GrpcMessage("Method not found: /does/not/matter".to_owned())));
    let r = call_unary(&server, "/text/Unary", "bb", |s| Ok(s));
    assert_eq!(r, Ok("bb".to_owned()));
}

#[test]
fn find_method_takes_first_match() {
    let server = ServerServiceDefinition::new(vec![
        string_string_method("/a", GrpcStreaming::Unary),
        string_string_method("/b", GrpcStreaming::ServerStreaming),
        string_string_method("/b", GrpcStreaming::Unary),
    ]);
    assert_eq!(server.find_method(&"/a".to_owned()), Some(0));
    assert_eq!(server.find_method(&"/b".to_owned()), Some(1));
    assert_eq!(server.find_method(&"/c".to_owned()), None);
    assert_eq!(ServerServiceDefinition::new(Vec::new()).find_method(&"/a".to_owned()), None);
}

#[test]
fn unary_reply_parts() {
    assert_eq!(
        unary_reply(Ok(vec![1, 2])),
        vec![ResponsePart::Message(vec![1, 2]), ResponsePart::End]
    );
    assert_eq!(
        unary_reply(Err(GrpcError::Http(HttpError::InvalidFrame))),
        vec![ResponsePart::Status("invalid frame".to_owned())]
    );
    assert_eq!(unary_result(ResponsePart::End), Err(GrpcError::Other("no response".to_owned())));
}

#[test]
fn status_messages() {
    assert_eq!(GrpcError::Http(HttpError::IoError).status_message(), "I/O error");
    assert_eq!(GrpcError::GrpcMessage("m".to_owned()).status_message(), "m");
    assert_eq!(GrpcError::Other("o".to_owned()).status_message(), "o");
    assert_eq!(GrpcError::Panic("p".to_owned()).status_message(), "Panic: p");
}

#[test]
fn server_streaming() {
    let server = single_method_server("/test/ServerStreaming", GrpcStreaming::ServerStreaming);
    assert_eq!(server.dispatch(&"/test/ServerStreaming".to_owned()), Ok(0));
    let s = "x".to_owned();
    let mut produced: Vec<usize> = Vec::new();
    let mut pump = StreamPump::new();
    let mut next_value = 0usize;
    let mut rs: Vec<String> = Vec::new();
    loop {
        assert!(!pump.may_produce());
        pump.request();
        assert!(pump.may_produce());
        let item = if next_value < 3 {
            produced.push(next_value);
            let v = format!("{}{}", s, next_value);
            next_value += 1;
            Some(Ok(v.into_bytes()))
        } else {
            None
        };
        assert_eq!(produced.len() as u64, pump.requested.min(3));
        let part = pump.send(item);
        match stream_item(part) {
            Some(Ok(b)) => rs.push(String::from_utf8(b).unwrap()),
            Some(Err(e)) => panic!("unexpected failure: {:?}", e),
            None => break,
        }
    }
    assert_eq!(rs, vec!["x0", "x1", "x2"]);
    assert!(pump.finished);
    assert_eq!(pump.sent, 4);
}

#[test]
fn streaming_failure_ends_the_stream() {
    let mut pump = StreamPump::new();
    pump.request();
    let part = pump.send(Some(Err(GrpcError::Other("bad".to_owned()))));
    assert_eq!(part, ResponsePart::Status("bad".to_owned()));
    assert!(pump.finished);
    assert!(!pump.may_produce());
    assert_eq!(stream_item(part), Some(Err(GrpcError::GrpcMessage("bad".to_owned()))));
}

#[test]
fn stream_parts() {
    assert_eq!(stream_part(Some(Ok(vec![9]))), ResponsePart::Message(vec![9]));
    assert_eq!(stream_part(None), ResponsePart::End);
    assert_eq!(stream_item(ResponsePart::End), None);
}
