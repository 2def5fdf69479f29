use cryopod::podman::image_loaded;
use cryopod::podman::request::PodmanRequest;
use cryopod::podman::request::{PodmanResponse, ResponseError, RestMethod};
use cryopod::podman::requests::{ImageExists, ImageExistsResponse};
use cryopod::podman::socket::{parse_response, render_wire_request, PodmanSockErr};

#[test]
fn method_wire_tokens() {
    assert_eq!(RestMethod::Get.as_str(), "GET");
    assert_eq!(RestMethod::Post.as_str(), "POST");
    assert_eq!(RestMethod::Del.as_str(), "DEL");
    assert_eq!(RestMethod::Put.as_str(), "PUT");
}

#[test]
fn image_exists_request_path() {
    let req = ImageExists("sha256:abcd");
    assert_eq!(req.get_request(), "/images/sha256:abcd/exists");
}

#[test]
fn wire_request_is_exact() {
    let req = ImageExists("abc");
    let wire = render_wire_request(&req);
    assert_eq!(
        wire,
        "GET /v5.0.0/libpod/images/abc/exists HTTP/1.1\r\nHost: localhost\r\n\r\n"
    );
}

#[test]
fn no_content_success() {
    // Peer answers 204 with an empty body: envelope status 204, result Ok.
    let bytes = b"HTTP/1.1 204 No Content\r\n\r\n".to_vec();
    let r = parse_response::<ImageExists>(&bytes);
    match r {
        Ok(env) => {
            assert_eq!(env.status_code, 204);
            assert!(env.response.is_ok());
        }
        Err(_) => panic!("expected an envelope"),
    }
}

#[test]
fn not_found_error_payload() {
    // Peer answers 404 with the engine's error schema: envelope status 404,
    // result Err carrying the decoded fields.
    let bytes =
        b"HTTP/1.1 404 Not Found\r\n\r\n{\"cause\":\"no such image\",\"message\":\"not found\",\"response\":404}"
            .to_vec();
    let r = parse_response::<ImageExists>(&bytes);
    match r {
        Ok(env) => {
            assert_eq!(env.status_code, 404);
            match env.response {
                Err(e) => {
                    assert_eq!(e.cause, "no such image");
                    assert_eq!(e.message, "not found");
                    assert_eq!(e.response, 404);
                }
                Ok(_) => panic!("a 404 envelope must carry the error side"),
            }
        }
        Err(_) => panic!("expected an envelope"),
    }
}

#[test]
fn missing_boundary_is_malformed() {
    // No CRLF CRLF anywhere before the peer closed.
    let bytes = b"HTTP/1.1 200 OK".to_vec();
    let r = parse_response::<ImageExists>(&bytes);
    assert!(matches!(r, Err(PodmanSockErr::MalformedResponse)));
}

#[test]
fn empty_stream_is_malformed() {
    let bytes: Vec<u8> = Vec::new();
    let r = parse_response::<ImageExists>(&bytes);
    assert!(matches!(r, Err(PodmanSockErr::MalformedResponse)));
}

#[test]
fn garbage_status_line_is_malformed() {
    let bytes = b"NOT HTTP AT ALL\r\n\r\n{}".to_vec();
    let r = parse_response::<ImageExists>(&bytes);
    assert!(matches!(r, Err(PodmanSockErr::MalformedResponse)));
}

#[test]
fn undecodable_error_body_is_decode_failure() {
    // A well-formed response whose body does not match the error schema is a
    // body-decode failure, distinct from a malformed response.
    let bytes = b"HTTP/1.1 500 Internal\r\n\r\nnot json".to_vec();
    let r = parse_response::<ImageExists>(&bytes);
    assert!(matches!(r, Err(PodmanSockErr::BodyDecodeFailed)));
}

#[test]
fn error_body_missing_field_is_decode_failure() {
    let bytes = b"HTTP/1.1 500 Internal\r\n\r\n{\"cause\":\"x\",\"message\":\"y\"}".to_vec();
    let r = parse_response::<ImageExists>(&bytes);
    assert!(matches!(r, Err(PodmanSockErr::BodyDecodeFailed)));
}

#[test]
fn error_body_extra_fields_still_decode() {
    let bytes =
        b"HTTP/1.1 409 Conflict\r\n\r\n{\"cause\":\"c\",\"message\":\"m\",\"response\":409,\"extra\":1}"
            .to_vec();
    let r = parse_response::<ImageExists>(&bytes);
    match r {
        Ok(env) => {
            assert_eq!(env.status_code, 409);
            match env.response {
                Err(e) => {
                    assert_eq!(e.cause, "c");
                    assert_eq!(e.message, "m");
                    assert_eq!(e.response, 409);
                }
                Ok(_) => panic!("a 409 envelope must carry the error side"),
            }
        }
        Err(_) => panic!("expected an envelope"),
    }
}

#[test]
fn body_starts_at_first_boundary() {
    // The body is everything past the FIRST boundary; here that makes the
    // body start with garbage, so it cannot decode. Taking the last
    // boundary instead would wrongly see valid JSON.
    let bytes =
        b"HTTP/1.1 404 NF\r\n\r\ngarbage\r\n\r\n{\"cause\":\"c\",\"message\":\"m\",\"response\":2}"
            .to_vec();
    let r = parse_response::<ImageExists>(&bytes);
    assert!(matches!(r, Err(PodmanSockErr::BodyDecodeFailed)));
}

#[test]
fn status_class_thresholds() {
    // 200 and 299 are success; 199 and 300 take the error side.
    let ok_low = parse_response::<ImageExists>(&b"HTTP/1.1 200 OK\r\n\r\n".to_vec());
    match ok_low {
        Ok(env) => assert!(env.response.is_ok()),
        Err(_) => panic!("expected an envelope"),
    }
    let ok_high = parse_response::<ImageExists>(&b"HTTP/1.1 299 Odd\r\n\r\n".to_vec());
    match ok_high {
        Ok(env) => assert!(env.response.is_ok()),
        Err(_) => panic!("expected an envelope"),
    }
    let below = parse_response::<ImageExists>(
        &b"HTTP/1.1 199 Early\r\n\r\n{\"cause\":\"c\",\"message\":\"m\",\"response\":199}".to_vec(),
    );
    match below {
        Ok(env) => assert!(env.response.is_err()),
        Err(_) => panic!("expected an envelope"),
    }
    let above = parse_response::<ImageExists>(
        &b"HTTP/1.1 300 Moved\r\n\r\n{\"cause\":\"c\",\"message\":\"m\",\"response\":300}".to_vec(),
    );
    match above {
        Ok(env) => assert!(env.response.is_err()),
        Err(_) => panic!("expected an envelope"),
    }
}

#[test]
fn repeated_round_trip_is_identical() {
    // Two round-trips answered with identical bytes yield structurally
    // identical success envelopes.
    let bytes = b"HTTP/1.1 204 No Content\r\n\r\n".to_vec();
    let first = parse_response::<ImageExists>(&bytes);
    let second = parse_response::<ImageExists>(&bytes);
    match (first, second) {
        (Ok(e1), Ok(e2)) => {
            assert_eq!(e1.status_code, e2.status_code);
            assert!(e1.response.is_ok() && e2.response.is_ok());
        }
        _ => panic!("expected two envelopes"),
    }
}

#[test]
fn image_loaded_on_success_envelope() {
    let env = PodmanResponse {
        status_code: 204,
        response: Ok(ImageExistsResponse()),
    };
    let r = image_loaded(env);
    assert!(matches!(r, Ok(true)));
}

#[test]
fn image_loaded_on_not_found() {
    let env: PodmanResponse<ImageExistsResponse> = PodmanResponse {
        status_code: 404,
        response: Err(ResponseError {
            cause: "no such image".to_string(),
            message: "not found".to_string(),
            response: 404,
        }),
    };
    let r = image_loaded(env);
    assert!(matches!(r, Ok(false)));
}

#[test]
fn image_loaded_propagates_other_api_errors() {
    let env: PodmanResponse<ImageExistsResponse> = PodmanResponse {
        status_code: 500,
        response: Err(ResponseError {
            cause: "boom".to_string(),
            message: "server error".to_string(),
            response: 500,
        }),
    };
    let r = image_loaded(env);
    match r {
        Err(PodmanSockErr::ApiError(e)) => {
            assert_eq!(e.cause, "boom");
            assert_eq!(e.message, "server error");
            assert_eq!(e.response, 500);
        }
        _ => panic!("a non-404 engine error must propagate as ApiError"),
    }
}

#[test]
fn cryopod_construction_succeeds() {
    let c = cryopod::cryopod::Cryopod::new();
    assert!(c.is_ok());
    assert!(c.unwrap().develop().is_ok());
}
