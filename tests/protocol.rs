use clipboard::pdu::join_position;
use clipboard::{
    CapabilitySet, ClientCapability, ClientError, ClientState, ClipboardFile, ClipboardPayload,
    FileContentsRequest, FileContentsRequestType, FileContentsResponse,
    FileContentsResponsePayload, FormatDataRequest, FormatDataResponse, FormatList,
    FormatListResponse, MonitorReady, NotifyCallback, CB_FILECONTENTS_RANGE,
    CB_FILECONTENTS_SIZE, CB_REQUEST_SIZE, CB_RESPONSE_FAIL, CB_RESPONSE_OK,
};

fn huge_caps() -> CapabilitySet {
    let mut caps = CapabilitySet::new();
    caps.insert(ClientCapability::StreamFileClip);
    caps.insert(ClientCapability::HugeFileSupport);
    caps
}

fn small_caps() -> CapabilitySet {
    let mut caps = CapabilitySet::new();
    caps.insert(ClientCapability::StreamFileClip);
    caps
}

fn positions(pdu: &ClipboardFile) -> (i32, u64, u32, u32) {
    match pdu {
        ClipboardFile::FileContentsRequest {
            dw_flags,
            cb_requested,
            n_position_low,
            n_position_high,
            ..
        } => (*dw_flags, *cb_requested, *n_position_low, *n_position_high),
        other => panic!("not a file-contents request: {:?}", other),
    }
}

#[test]
fn range_offset_split_and_joined() {
    let offset: u64 = 0x1_2345_6789;
    let req = FileContentsRequest::new(3, 4, FileContentsRequestType::Range(offset, 4096), None);
    let pdu = req.into_clipboard_file();
    let (flags, cb, low, high) = positions(&pdu);
    assert_eq!(flags, CB_FILECONTENTS_RANGE);
    assert_eq!(cb, 4096);
    assert_eq!(low, 0x2345_6789);
    assert_eq!(high, 1);
    assert_eq!(((high as u64) << 32) | low as u64, offset);
    assert_eq!(join_position(low, high), offset);
    assert!(matches!(
        pdu.requested_kind(),
        Some(FileContentsRequestType::Range(o, 4096)) if o == offset
    ));
}

#[test]
fn range_offset_largest_value() {
    let req = FileContentsRequest::new(1, 0, FileContentsRequestType::Range(u64::MAX, 0), None);
    let pdu = req.into_clipboard_file();
    let (_, cb, low, high) = positions(&pdu);
    assert_eq!((cb, low, high), (0, u32::MAX, u32::MAX));
    assert_eq!(join_position(low, high), u64::MAX);
}

#[test]
fn size_request_encoding() {
    let req = FileContentsRequest::new(9, 2, FileContentsRequestType::Size, Some(77));
    let pdu = req.into_clipboard_file();
    match &pdu {
        ClipboardFile::FileContentsRequest {
            stream_id,
            list_index,
            dw_flags,
            cb_requested,
            n_position_low,
            n_position_high,
            have_clip_data_id,
            clip_data_id,
        } => {
            assert_eq!(*stream_id, 9);
            assert_eq!(*list_index, 2);
            assert_eq!(*dw_flags, CB_FILECONTENTS_SIZE);
            assert_eq!(*cb_requested, CB_REQUEST_SIZE);
            assert_eq!(*cb_requested, 8);
            assert_eq!(*n_position_low, 0);
            assert_eq!(*n_position_high, 0);
            assert!(*have_clip_data_id);
            assert_eq!(*clip_data_id, 77);
        }
        other => panic!("unexpected {:?}", other),
    }
    assert!(matches!(pdu.requested_kind(), Some(FileContentsRequestType::Size)));
}

#[test]
fn size_and_range_flags_differ() {
    assert_ne!(CB_FILECONTENTS_SIZE, CB_FILECONTENTS_RANGE);
    let bad = ClipboardFile::FileContentsRequest {
        stream_id: 0,
        list_index: 0,
        dw_flags: 0x40,
        cb_requested: 0,
        n_position_low: 0,
        n_position_high: 0,
        have_clip_data_id: false,
        clip_data_id: 0,
    };
    assert!(bad.requested_kind().is_none());
    assert!(ClipboardFile::MonitorReady.requested_kind().is_none());
}

#[test]
fn request_without_clip_data_id() {
    let req = FileContentsRequest::new(5, 6, FileContentsRequestType::Size, None);
    assert_eq!(req.stream(), 5);
    assert_eq!(req.file_index(), 6);
    assert!(req.clipdata_id().is_none());
    match req.into_clipboard_file() {
        ClipboardFile::FileContentsRequest { have_clip_data_id, clip_data_id, .. } => {
            assert!(!have_clip_data_id);
            assert_eq!(clip_data_id, 0);
        }
        other => panic!("unexpected {:?}", other),
    }
}

#[test]
fn format_data_response_none_and_some() {
    let st = ClientState::new(small_caps());
    match st.client_format_data_response(None::<Vec<u8>>) {
        Ok(ClipboardFile::FormatDataResponse { msg_flags, format_data }) => {
            assert_eq!(msg_flags, CB_RESPONSE_FAIL);
            assert!(format_data.is_empty());
        }
        other => panic!("unexpected {:?}", other),
    }
    match st.client_format_data_response(Some(vec![1u8, 2, 3])) {
        Ok(ClipboardFile::FormatDataResponse { msg_flags, format_data }) => {
            assert_eq!(msg_flags, CB_RESPONSE_OK);
            assert_eq!(format_data, vec![1u8, 2, 3]);
        }
        other => panic!("unexpected {:?}", other),
    }
    match st.client_format_data_response(Some(Vec::<u8>::new())) {
        Ok(ClipboardFile::FormatDataResponse { msg_flags, format_data }) => {
            assert_eq!(msg_flags, CB_RESPONSE_OK);
            assert!(format_data.is_empty());
        }
        other => panic!("unexpected {:?}", other),
    }
}

#[test]
fn format_data_response_builder() {
    let pdu = FormatDataResponse { format_data: None }.into_clipboard_file();
    assert!(matches!(
        pdu,
        ClipboardFile::FormatDataResponse { msg_flags: CB_RESPONSE_FAIL, ref format_data }
            if format_data.is_empty()
    ));
}

#[test]
fn format_list_response_flags() {
    let st = ClientState::new(small_caps());
    assert!(matches!(
        st.client_format_list_response(true),
        Ok(ClipboardFile::FormatListResponse { msg_flags: CB_RESPONSE_OK })
    ));
    assert!(matches!(
        st.client_format_list_response(false),
        Ok(ClipboardFile::FormatListResponse { msg_flags: CB_RESPONSE_FAIL })
    ));
    assert_eq!(CB_RESPONSE_OK, 1);
    assert_eq!(CB_RESPONSE_FAIL, 2);
    assert!(matches!(
        FormatListResponse { success: false }.into_clipboard_file(),
        ClipboardFile::FormatListResponse { msg_flags: 2 }
    ));
}

#[test]
fn huge_range_refused_without_capability() {
    let mut st = ClientState::new(small_caps());
    let req = FileContentsRequest::new(1, 0, FileContentsRequestType::Range(0xFFFF_FFFF, 1), None);
    assert!(matches!(st.client_file_contents_request(req), Err(ClientError::Fail(_))));
    assert!(!st.is_pending(1));
    let req = FileContentsRequest::new(1, 0, FileContentsRequestType::Range(u64::MAX, u64::MAX), None);
    assert!(matches!(st.client_file_contents_request(req), Err(ClientError::Fail(_))));
}

#[test]
fn small_range_accepted_without_capability() {
    let mut st = ClientState::new(small_caps());
    let req = FileContentsRequest::new(1, 0, FileContentsRequestType::Range(0xFFFF_FFFE, 1), None);
    assert!(st.client_file_contents_request(req).is_ok());
    assert!(st.is_pending(1));
    let req = FileContentsRequest::new(2, 0, FileContentsRequestType::Size, None);
    assert!(st.client_file_contents_request(req).is_ok());
}

#[test]
fn huge_range_accepted_with_capability() {
    let mut st = ClientState::new(huge_caps());
    assert!(st.capabilities().contains(ClientCapability::HugeFileSupport));
    let req = FileContentsRequest::new(1, 0, FileContentsRequestType::Range(0x1_0000_0000, 10), None);
    assert!(st.client_file_contents_request(req).is_ok());
    let req = FileContentsRequest::new(2, 0, FileContentsRequestType::Range(u64::MAX, u64::MAX), None);
    assert!(st.client_file_contents_request(req).is_ok());
}

#[test]
fn duplicate_stream_is_internal() {
    let mut st = ClientState::new(huge_caps());
    let req = FileContentsRequest::new(4, 0, FileContentsRequestType::Size, None);
    assert!(st.client_file_contents_request(req).is_ok());
    let req = FileContentsRequest::new(4, 1, FileContentsRequestType::Size, None);
    assert!(matches!(st.client_file_contents_request(req), Err(ClientError::Internal(_))));
}

#[test]
fn unknown_stream_is_internal() {
    let mut st = ClientState::new(huge_caps());
    let resp = FileContentsResponse { stream: 42, payload: None };
    assert!(matches!(st.server_clip_file(resp), Err(ClientError::Internal(_))));
}

#[test]
fn known_stream_resolves_exactly_once() {
    let mut st = ClientState::new(huge_caps());
    let req = FileContentsRequest::new(8, 3, FileContentsRequestType::Range(0, 16), None);
    assert!(st.client_file_contents_request(req).is_ok());
    let resp = FileContentsResponse {
        stream: 8,
        payload: Some(FileContentsResponsePayload::Contents(vec![9u8; 16])),
    };
    match st.server_clip_file(resp) {
        Ok(r) => {
            assert_eq!(r.stream, 8);
            assert!(matches!(r.payload, Some(FileContentsResponsePayload::Contents(ref b)) if b.len() == 16));
        }
        Err(e) => panic!("unexpected {:?}", e),
    }
    assert!(!st.is_pending(8));
    let again = FileContentsResponse { stream: 8, payload: Some(FileContentsResponsePayload::Size(1)) };
    assert!(matches!(st.server_clip_file(again), Err(ClientError::Internal(_))));
}

#[test]
fn abandoned_stream_no_longer_resolves() {
    let mut st = ClientState::new(huge_caps());
    let req = FileContentsRequest::new(2, 0, FileContentsRequestType::Size, None);
    assert!(st.client_file_contents_request(req).is_ok());
    assert!(st.abandon_stream(2));
    assert!(!st.abandon_stream(2));
    let resp = FileContentsResponse { stream: 2, payload: None };
    assert!(matches!(st.server_clip_file(resp), Err(ClientError::Internal(_))));
}

#[test]
fn end_to_end_format_exchange() {
    let mut local = ClientState::new(huge_caps());
    let mut remote = ClientState::new(huge_caps());
    let list = vec![(1, "text".to_string()), (2, "files".to_string())];
    let advertised = local.client_format_list(list).unwrap();
    let received = match advertised {
        ClipboardFile::FormatList { format_list } => format_list,
        other => panic!("unexpected {:?}", other),
    };
    assert_eq!(received, vec![(1, "text".to_string()), (2, "files".to_string())]);
    assert!(remote.server_format_list(received).is_ok());
    assert!(matches!(
        remote.client_format_list_response(true),
        Ok(ClipboardFile::FormatListResponse { msg_flags: CB_RESPONSE_OK })
    ));
    let request = remote.client_format_data_request(1).unwrap();
    let wanted = match request {
        ClipboardFile::FormatDataRequest { requested_format_id } => requested_format_id,
        other => panic!("unexpected {:?}", other),
    };
    assert_eq!(wanted, 1);
    match local.client_format_data_response(Some(b"hello".to_vec())) {
        Ok(ClipboardFile::FormatDataResponse { msg_flags, format_data }) => {
            assert_eq!(msg_flags, CB_RESPONSE_OK);
            assert_eq!(format_data, b"hello".to_vec());
        }
        other => panic!("unexpected {:?}", other),
    }
}

#[test]
fn builders_convert_structurally() {
    let n = NotifyCallback { ty: "info".to_string(), title: "t".to_string(), text: "x".to_string() };
    match n.into_clipboard_file() {
        ClipboardFile::NotifyCallback { ty, title, text } => {
            assert_eq!((ty.as_str(), title.as_str(), text.as_str()), ("info", "t", "x"));
        }
        other => panic!("unexpected {:?}", other),
    }
    assert!(matches!(MonitorReady {}.into_clipboard_file(), ClipboardFile::MonitorReady));
    assert!(matches!(
        FormatDataRequest { format_id: -5 }.into_clipboard_file(),
        ClipboardFile::FormatDataRequest { requested_format_id: -5 }
    ));
    match (FormatList { format_list: vec![(13, "a".to_string()), (1, "b".to_string())] })
        .into_clipboard_file()
    {
        ClipboardFile::FormatList { format_list } => {
            assert_eq!(format_list, vec![(13, "a".to_string()), (1, "b".to_string())]);
        }
        other => panic!("unexpected {:?}", other),
    }
    let resp = FileContentsResponse { stream: 6, payload: Some(FileContentsResponsePayload::Size(123)) };
    assert!(matches!(
        resp.into_clipboard_file(),
        ClipboardFile::FileContentsResponse {
            stream_id: 6,
            payload: Some(FileContentsResponsePayload::Size(123))
        }
    ));
}

#[test]
fn capability_set_membership() {
    let mut caps = CapabilitySet::new();
    assert!(!caps.contains(ClientCapability::LockClipData));
    caps.insert(ClientCapability::LockClipData);
    caps.insert(ClientCapability::LockClipData);
    assert!(caps.contains(ClientCapability::LockClipData));
    assert!(!caps.contains(ClientCapability::LongFormatNames));
    assert!(!caps.contains(ClientCapability::FileClipNoFilePaths));
}
