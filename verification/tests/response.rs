use simples3::{get_body, get_status, put_status, Error, Fault, Refusal};

#[test]
fn get_goes_on_after_success() {
    assert_eq!(get_status(Ok(200)), Ok(()));
    assert_eq!(get_status(Ok(204)), Ok(()));
    assert_eq!(get_status(Ok(206)), Ok(()));
    assert_eq!(get_status(Ok(299)), Ok(()));
}

#[test]
fn get_of_a_missing_object_is_not_found() {
    assert_eq!(get_status(Ok(404)), Err(Error::ObjectNotFound));
    assert_ne!(get_status(Ok(404)), Err(Error::Transport(Fault::Status(404))));
}

#[test]
fn get_with_refused_signature_is_an_auth_error() {
    assert_eq!(get_status(Ok(403)), Err(Error::Auth(Refusal::Status(403))));
    assert_eq!(get_status(Ok(401)), Err(Error::Auth(Refusal::Status(401))));
}

#[test]
fn get_with_another_status_is_a_transport_error() {
    for status in [0u16, 100, 199, 300, 301, 304, 400, 402, 405, 409, 500, 503, 999, 65535] {
        assert_eq!(get_status(Ok(status)), Err(Error::Transport(Fault::Status(status))));
    }
}

#[test]
fn get_without_a_response_is_a_transport_error() {
    assert_eq!(
        get_status(Err(String::from("connection refused"))),
        Err(Error::Transport(Fault::Network(String::from("connection refused"))))
    );
}

#[test]
fn status_limits_of_success() {
    assert!(get_status(Ok(199)).is_err());
    assert!(get_status(Ok(200)).is_ok());
    assert!(get_status(Ok(299)).is_ok());
    assert!(get_status(Ok(300)).is_err());
    assert!(put_status(Ok(199)).is_err());
    assert!(put_status(Ok(200)).is_ok());
    assert!(put_status(Ok(299)).is_ok());
    assert!(put_status(Ok(300)).is_err());
}

#[test]
fn get_body_hands_the_bytes_on() {
    assert_eq!(get_body(Ok(Some(b"hello".to_vec()))), Ok(b"hello".to_vec()));
    assert_eq!(get_body(Ok(Some(Vec::new()))), Ok(Vec::new()));
}

#[test]
fn get_body_that_is_absent_is_a_transport_error() {
    assert_eq!(get_body(Ok(None)), Err(Error::Transport(Fault::NoBody)));
}

#[test]
fn get_body_that_breaks_off_is_a_transport_error() {
    assert_eq!(
        get_body(Err(String::from("connection reset"))),
        Err(Error::Transport(Fault::Network(String::from("connection reset"))))
    );
}

#[test]
fn put_is_acknowledged_by_success() {
    assert_eq!(put_status(Ok(200)), Ok(()));
    assert_eq!(put_status(Ok(201)), Ok(()));
    assert_eq!(put_status(Ok(204)), Ok(()));
}

#[test]
fn put_never_reports_a_missing_object() {
    assert_eq!(put_status(Ok(404)), Err(Error::Transport(Fault::Status(404))));
}

#[test]
fn put_with_refused_signature_is_an_auth_error() {
    assert_eq!(put_status(Ok(403)), Err(Error::Auth(Refusal::Status(403))));
    assert_eq!(put_status(Ok(401)), Err(Error::Auth(Refusal::Status(401))));
}

#[test]
fn put_with_another_status_is_a_transport_error() {
    for status in [0u16, 199, 300, 307, 400, 412, 500, 503] {
        assert_eq!(put_status(Ok(status)), Err(Error::Transport(Fault::Status(status))));
    }
}

#[test]
fn put_without_a_response_is_a_transport_error() {
    assert_eq!(
        put_status(Err(String::from("timed out"))),
        Err(Error::Transport(Fault::Network(String::from("timed out"))))
    );
}

#[test]
fn every_status_is_classified() {
    for status in 0..=u16::MAX {
        let got = get_status(Ok(status));
        let put = put_status(Ok(status));
        if (200..=299).contains(&status) {
            assert_eq!(got, Ok(()));
            assert_eq!(put, Ok(()));
        } else if status == 404 {
            assert_eq!(got, Err(Error::ObjectNotFound));
            assert_eq!(put, Err(Error::Transport(Fault::Status(404))));
        } else if status == 401 || status == 403 {
            assert_eq!(got, Err(Error::Auth(Refusal::Status(status))));
            assert_eq!(put, Err(Error::Auth(Refusal::Status(status))));
        } else {
            assert_eq!(got, Err(Error::Transport(Fault::Status(status))));
            assert_eq!(put, Err(Error::Transport(Fault::Status(status))));
        }
    }
}

#[test]
fn error_kinds_are_distinct() {
    let kinds = [
        Error::Config(String::from("x")),
        Error::CredentialsUnavailable,
        Error::Auth(Refusal::TooLong),
        Error::Auth(Refusal::Status(403)),
        Error::Transport(Fault::Network(String::from("x"))),
        Error::Transport(Fault::Status(403)),
        Error::Transport(Fault::NoBody),
        Error::ObjectNotFound,
    ];
    for (i, a) in kinds.iter().enumerate() {
        for (j, b) in kinds.iter().enumerate() {
            assert_eq!(a == b, i == j);
        }
    }
}
