//! Typed builders for the clipboard PDUs and their conversion into
//! `ClipboardFile`.
use vstd::prelude::*;

use crate::pdu::{
    format_list_view, payload_option_view, ClipboardFile, PduView, CB_FILECONTENTS_RANGE,
    CB_FILECONTENTS_SIZE, CB_REQUEST_SIZE, CB_RESPONSE_FAIL, CB_RESPONSE_OK,
};

verus! {

/// A value that converts into exactly one `ClipboardFile`.
pub trait ClipboardPayload: Sized {
    /// The model of the PDU that this value converts into.
    spec fn pdu_view(&self) -> PduView;

    /// Converts the builder into its PDU.
    fn into_clipboard_file(self) -> (r: ClipboardFile)
        ensures
            r@ == self.pdu_view(),
    ;
}

/// Builder of a local notification.
#[derive(Debug, Clone)]
pub struct NotifyCallback {
    pub ty: String,
    pub title: String,
    pub text: String,
}

impl ClipboardPayload for NotifyCallback {
    open spec fn pdu_view(&self) -> PduView {
        PduView::NotifyCallback { ty: self.ty@, title: self.title@, text: self.text@ }
    }

    fn into_clipboard_file(self) -> (r: ClipboardFile) {
        ClipboardFile::NotifyCallback { ty: self.ty, title: self.title, text: self.text }
    }
}

/// Builder of the monitor-ready signal.
#[derive(Debug, Clone)]
pub struct MonitorReady {}

impl ClipboardPayload for MonitorReady {
    open spec fn pdu_view(&self) -> PduView {
        PduView::MonitorReady
    }

    fn into_clipboard_file(self) -> (r: ClipboardFile) {
        ClipboardFile::MonitorReady
    }
}

/// Builder of a format list: `(format id, format name)` pairs, in order.
#[derive(Debug, Clone)]
pub struct FormatList {
    pub format_list: Vec<(i32, String)>,
}

impl ClipboardPayload for FormatList {
    open spec fn pdu_view(&self) -> PduView {
        PduView::FormatList { format_list: format_list_view(self.format_list@) }
    }

    fn into_clipboard_file(self) -> (r: ClipboardFile) {
        ClipboardFile::FormatList { format_list: self.format_list }
    }
}

/// The acknowledgment flag for a success indicator.
pub open spec fn response_flag(success: bool) -> i32 {
    if success {
        CB_RESPONSE_OK
    } else {
        CB_RESPONSE_FAIL
    }
}

/// Builder of a format-list acknowledgment.
#[derive(Debug, Clone)]
pub struct FormatListResponse {
    pub success: bool,
}

impl ClipboardPayload for FormatListResponse {
    open spec fn pdu_view(&self) -> PduView {
        PduView::FormatListResponse { msg_flags: response_flag(self.success) }
    }

    fn into_clipboard_file(self) -> (r: ClipboardFile) {
        let msg_flags = if self.success {
            CB_RESPONSE_OK
        } else {
            CB_RESPONSE_FAIL
        };
        ClipboardFile::FormatListResponse { msg_flags }
    }
}

/// Builder of a request for the payload of one format.
#[derive(Debug, Clone)]
pub struct FormatDataRequest {
    pub format_id: i32,
}

impl ClipboardPayload for FormatDataRequest {
    open spec fn pdu_view(&self) -> PduView {
        PduView::FormatDataRequest { requested_format_id: self.format_id }
    }

    fn into_clipboard_file(self) -> (r: ClipboardFile) {
        ClipboardFile::FormatDataRequest { requested_format_id: self.format_id }
    }
}

/// The format-data response PDU for a payload, or for its absence.
pub open spec fn format_data_response_view(data: Option<Seq<u8>>) -> PduView {
    match data {
        Some(d) => PduView::FormatDataResponse { msg_flags: CB_RESPONSE_OK, format_data: d },
        None => PduView::FormatDataResponse { msg_flags: CB_RESPONSE_FAIL, format_data: Seq::empty() },
    }
}

/// Builder of a format-data response: `None` when the data could not be had.
#[derive(Debug, Clone)]
pub struct FormatDataResponse {
    pub format_data: Option<Vec<u8>>,
}

impl ClipboardPayload for FormatDataResponse {
    open spec fn pdu_view(&self) -> PduView {
        format_data_response_view(
            match self.format_data {
                Some(d) => Some(d@),
                None => None,
            },
        )
    }

    fn into_clipboard_file(self) -> (r: ClipboardFile) {
        match self.format_data {
            Some(format_data) => ClipboardFile::FormatDataResponse {
                msg_flags: CB_RESPONSE_OK,
                format_data,
            },
            None => ClipboardFile::FormatDataResponse {
                msg_flags: CB_RESPONSE_FAIL,
                format_data: Vec::new(),
            },
        }
    }
}

/// What a file-contents request asks for.
#[derive(Debug, Clone, Copy, PartialEq, Eq, Structural)]
pub enum FileContentsRequestType {
    /// The size of the file.
    Size,
    /// `(offset, size)`: `size` bytes of the file from `offset` on.
    Range(u64, u64),
}

/// The wire encoding of a file-contents request.
///
/// A size query asks for `CB_REQUEST_SIZE` bytes at position 0; a range read
/// asks for `size` bytes and splits `offset` into its low and high 32 bits.
pub open spec fn file_contents_request_view(
    stream_id: u32,
    list_index: u32,
    kind: FileContentsRequestType,
    clip_data_id: Option<u32>,
) -> PduView {
    let have_clip_data_id = clip_data_id is Some;
    let clip_data_id = match clip_data_id {
        Some(id) => id,
        None => 0u32,
    };
    match kind {
        FileContentsRequestType::Size => PduView::FileContentsRequest {
            stream_id,
            list_index,
            dw_flags: CB_FILECONTENTS_SIZE,
            cb_requested: CB_REQUEST_SIZE,
            n_position_low: 0,
            n_position_high: 0,
            have_clip_data_id,
            clip_data_id,
        },
        FileContentsRequestType::Range(offset, size) => PduView::FileContentsRequest {
            stream_id,
            list_index,
            dw_flags: CB_FILECONTENTS_RANGE,
            cb_requested: size,
            n_position_low: (offset & 0xFFFF_FFFFu64) as u32,
            n_position_high: (offset >> 32u64) as u32,
            have_clip_data_id,
            clip_data_id,
        },
    }
}

/// Builder of a file-contents request for file `file_index` of the current
/// file list, correlated by `stream`.
#[derive(Debug, Clone)]
pub struct FileContentsRequest {
    stream: u32,
    file_index: u32,
    req_type: FileContentsRequestType,
    clipdata_id: Option<u32>,
}

impl FileContentsRequest {
    /// A request on stream `stream` for file `file_index`.
    pub fn new(
        stream: u32,
        file_index: u32,
        req_type: FileContentsRequestType,
        clipdata_id: Option<u32>,
    ) -> (r: FileContentsRequest)
        ensures
            r.stream_spec() == stream,
            r.file_index_spec() == file_index,
            r.req_type_spec() == req_type,
            r.clipdata_id_spec() == clipdata_id,
    {
        FileContentsRequest { stream, file_index, req_type, clipdata_id }
    }

    pub closed spec fn stream_spec(&self) -> u32 {
        self.stream
    }

    pub closed spec fn file_index_spec(&self) -> u32 {
        self.file_index
    }

    pub closed spec fn req_type_spec(&self) -> FileContentsRequestType {
        self.req_type
    }

    pub closed spec fn clipdata_id_spec(&self) -> Option<u32> {
        self.clipdata_id
    }

    /// The stream id that correlates the request with its response.
    pub fn stream(&self) -> (r: u32)
        ensures
            r == self.stream_spec(),
    {
        self.stream
    }

    /// The index of the file in the current file list.
    pub fn file_index(&self) -> (r: u32)
        ensures
            r == self.file_index_spec(),
    {
        self.file_index
    }

    /// What the request asks for.
    pub fn req_type(&self) -> (r: FileContentsRequestType)
        ensures
            r == self.req_type_spec(),
    {
        self.req_type
    }

    /// The locked clipboard snapshot the request refers to, if any.
    pub fn clipdata_id(&self) -> (r: Option<u32>)
        ensures
            r == self.clipdata_id_spec(),
    {
        self.clipdata_id
    }
}

impl ClipboardPayload for FileContentsRequest {
    open spec fn pdu_view(&self) -> PduView {
        file_contents_request_view(
            self.stream_spec(),
            self.file_index_spec(),
            self.req_type_spec(),
            self.clipdata_id_spec(),
        )
    }

    fn into_clipboard_file(self) -> (r: ClipboardFile) {
        let (have_clip_data_id, clip_data_id) = match self.clipdata_id {
            Some(id) => (true, id),
            None => (false, 0u32),
        };
        match self.req_type {
            FileContentsRequestType::Size => ClipboardFile::FileContentsRequest {
                stream_id: self.stream,
                list_index: self.file_index,
                dw_flags: CB_FILECONTENTS_SIZE,
                cb_requested: CB_REQUEST_SIZE,
                n_position_low: 0,
                n_position_high: 0,
                have_clip_data_id,
                clip_data_id,
            },
            FileContentsRequestType::Range(offset, size) => ClipboardFile::FileContentsRequest {
                stream_id: self.stream,
                list_index: self.file_index,
                dw_flags: CB_FILECONTENTS_RANGE,
                cb_requested: size,
                n_position_low: (offset & 0xFFFF_FFFFu64) as u32,
                n_position_high: (offset >> 32u64) as u32,
                have_clip_data_id,
                clip_data_id,
            },
        }
    }
}

/// What a file-contents response carries on success.
#[derive(Debug, Clone)]
pub enum FileContentsResponsePayload {
    /// The requested file size.
    Size(u64),
    /// The requested bytes of the file.
    Contents(Vec<u8>),
}

/// Builder of a file-contents response: `payload` is `None` on failure.
#[derive(Debug, Clone)]
pub struct FileContentsResponse {
    pub stream: u32,
    pub payload: Option<FileContentsResponsePayload>,
}

impl ClipboardPayload for FileContentsResponse {
    open spec fn pdu_view(&self) -> PduView {
        PduView::FileContentsResponse { stream_id: self.stream, payload: payload_option_view(self.payload) }
    }

    fn into_clipboard_file(self) -> (r: ClipboardFile) {
        ClipboardFile::FileContentsResponse { stream_id: self.stream, payload: self.payload }
    }
}

} // verus!
