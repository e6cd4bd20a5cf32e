use bob_fusion::connector::{
    delete_outcome, delete_request, exist_outcome, exist_request, get_outcome, get_request,
    put_outcome, put_request, request_timestamp, BlobKey, ConnectorCause, ConnectorError,
    ConnectorReport, DBConnector, ErrorCode, GetSource, TransportError,
};

fn key(k: u8) -> BlobKey {
    BlobKey { key: vec![k] }
}

fn failure(context: ConnectorError, cause: ConnectorCause) -> ConnectorReport {
    ConnectorReport { context, cause }
}

fn transport_error() -> TransportError {
    TransportError {
        code: 14,
        message: "unavailable".to_string(),
    }
}

fn error_code() -> ErrorCode {
    ErrorCode {
        code: 404,
        desc: "not found".to_string(),
    }
}

#[test]
fn get_request_and_outcome() {
    let req = get_request(key(1));
    assert_eq!(req.key, key(1));
    assert!(req.force_node);
    assert_eq!(req.source, GetSource::Normal);
    assert_eq!(get_outcome(Ok(vec![1, 2, 3])), Ok(vec![1, 2, 3]));
    assert_eq!(
        get_outcome(Err(transport_error())),
        Err(failure(ConnectorError::GetError, ConnectorCause::Transport(transport_error())))
    );
}

#[test]
fn put_request_and_outcome() {
    let req = put_request(key(2), b"Test data 2".to_vec(), 1_700_000_000);
    assert_eq!(req.key, key(2));
    assert_eq!(req.data, b"Test data 2".to_vec());
    assert_eq!(req.timestamp, 1_700_000_000);
    assert!(req.remote_nodes.is_empty());
    assert!(req.force_node);
    assert!(req.overwrite);
    assert_eq!(put_outcome(Ok(None)), Ok(()));
    assert_eq!(
        put_outcome(Ok(Some(error_code()))),
        Err(failure(ConnectorError::PutError, ConnectorCause::Node(error_code())))
    );
    assert_eq!(
        put_outcome(Err(transport_error())),
        Err(failure(ConnectorError::PutError, ConnectorCause::Transport(transport_error())))
    );
    assert_eq!(
        put_outcome(Ok(Some(error_code()))).unwrap_err().current_context(),
        &ConnectorError::PutError
    );
}

#[test]
fn delete_request_and_outcome() {
    let req = delete_request(key(3), 42);
    assert_eq!(req.key, key(3));
    assert_eq!(req.timestamp, 42);
    assert!(req.force_alien_nodes.is_empty());
    assert!(req.force_node);
    assert!(!req.is_alien);
    assert_eq!(delete_outcome(Ok(None)), Ok(()));
    assert_eq!(
        delete_outcome(Ok(Some(error_code()))),
        Err(failure(ConnectorError::DeleteError, ConnectorCause::Node(error_code())))
    );
    assert_eq!(
        delete_outcome(Err(transport_error())),
        Err(failure(ConnectorError::DeleteError, ConnectorCause::Transport(transport_error())))
    );
}

#[test]
fn exist_request_and_outcome() {
    let req = exist_request(vec![key(1), key(5), key(3)]);
    assert_eq!(req.keys, vec![key(1), key(5), key(3)]);
    assert!(req.force_node);
    assert_eq!(req.source, GetSource::Normal);
    assert_eq!(exist_outcome(Ok(vec![true, false, true])), Ok(vec![true, false, true]));
    assert_eq!(
        exist_outcome(Err(transport_error())),
        Err(failure(ConnectorError::DeleteError, ConnectorCause::Transport(transport_error())))
    );
}

#[test]
fn timestamp_is_after_2020() {
    let t = request_timestamp().unwrap();
    assert!(t > 1_577_836_800);
}

#[test]
fn connector_holds_its_client() {
    let mut connector = DBConnector::new(7u32);
    *connector.client_mut() += 1;
    assert_eq!(*connector.client_mut(), 8);
}
