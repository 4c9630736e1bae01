//! The canonical message model of the clipboard channel.
use vstd::prelude::*;

use crate::clipboard_file::{FileContentsRequestType, FileContentsResponsePayload};

verus! {

/// Acknowledgment flag: the format list or format data was accepted.
pub const CB_RESPONSE_OK: i32 = 0x0001;

/// Acknowledgment flag: the format list or format data was refused.
pub const CB_RESPONSE_FAIL: i32 = 0x0002;

/// File-contents request flag: the peer asks for the size of a file.
pub const CB_FILECONTENTS_SIZE: i32 = 0x0001;

/// File-contents request flag: the peer asks for a range of a file's bytes.
///
/// Distinct from `CB_FILECONTENTS_SIZE`, so that the two kinds of request
/// stay apart on the wire.
pub const CB_FILECONTENTS_RANGE: i32 = 0x0002;

/// Requested byte count of a size query: a 64-bit size is 8 bytes wide.
pub const CB_REQUEST_SIZE: u64 = 0x0008;

/// Largest offset + size that a peer without huge-file support can address.
pub const MAX_SMALL_FILE_EXTENT: u64 = 0xFFFF_FFFF;

/// One protocol data unit exchanged over the clipboard channel.
#[derive(Debug, Clone)]
pub enum ClipboardFile {
    /// Local-only notification; never sent to the peer.
    NotifyCallback { ty: String, title: String, text: String },
    /// The local clipboard monitor is running.
    MonitorReady,
    /// Ordered advertisement of `(format id, format name)` pairs.
    FormatList { format_list: Vec<(i32, String)> },
    /// Acknowledgment of a received format list.
    FormatListResponse { msg_flags: i32 },
    /// Request for the payload of one advertised format.
    FormatDataRequest { requested_format_id: i32 },
    /// Payload of one format; `format_data` is empty on failure.
    FormatDataResponse { msg_flags: i32, format_data: Vec<u8> },
    /// Request for the size or a byte range of one file of a file list.
    FileContentsRequest {
        stream_id: u32,
        list_index: u32,
        dw_flags: i32,
        cb_requested: u64,
        n_position_low: u32,
        n_position_high: u32,
        have_clip_data_id: bool,
        clip_data_id: u32,
    },
    /// Answer to a file-contents request; `payload` is `None` on failure.
    FileContentsResponse { stream_id: u32, payload: Option<FileContentsResponsePayload> },
}

/// Mathematical model of a file-contents response payload.
pub enum PayloadView {
    Size(u64),
    Contents(Seq<u8>),
}

/// Mathematical model of a `ClipboardFile`: strings and byte vectors become
/// sequences.
pub enum PduView {
    NotifyCallback { ty: Seq<char>, title: Seq<char>, text: Seq<char> },
    MonitorReady,
    FormatList { format_list: Seq<(i32, Seq<char>)> },
    FormatListResponse { msg_flags: i32 },
    FormatDataRequest { requested_format_id: i32 },
    FormatDataResponse { msg_flags: i32, format_data: Seq<u8> },
    FileContentsRequest {
        stream_id: u32,
        list_index: u32,
        dw_flags: i32,
        cb_requested: u64,
        n_position_low: u32,
        n_position_high: u32,
        have_clip_data_id: bool,
        clip_data_id: u32,
    },
    FileContentsResponse { stream_id: u32, payload: Option<PayloadView> },
}

/// The model of a format list: each name as its characters.
pub open spec fn format_list_view(l: Seq<(i32, String)>) -> Seq<(i32, Seq<char>)> {
    l.map_values(|e: (i32, String)| (e.0, e.1@))
}

impl View for FileContentsResponsePayload {
    type V = PayloadView;

    open spec fn view(&self) -> PayloadView {
        match self {
            FileContentsResponsePayload::Size(n) => PayloadView::Size(*n),
            FileContentsResponsePayload::Contents(b) => PayloadView::Contents(b@),
        }
    }
}

/// The model of an optional payload.
pub open spec fn payload_option_view(p: Option<FileContentsResponsePayload>) -> Option<PayloadView> {
    match p {
        Some(x) => Some(x@),
        None => None,
    }
}

impl View for ClipboardFile {
    type V = PduView;

    open spec fn view(&self) -> PduView {
        match self {
            ClipboardFile::NotifyCallback { ty, title, text } => PduView::NotifyCallback {
                ty: ty@,
                title: title@,
                text: text@,
            },
            ClipboardFile::MonitorReady => PduView::MonitorReady,
            ClipboardFile::FormatList { format_list } => PduView::FormatList {
                format_list: format_list_view(format_list@),
            },
            ClipboardFile::FormatListResponse { msg_flags } => PduView::FormatListResponse {
                msg_flags: *msg_flags,
            },
            ClipboardFile::FormatDataRequest { requested_format_id } => PduView::FormatDataRequest {
                requested_format_id: *requested_format_id,
            },
            ClipboardFile::FormatDataResponse { msg_flags, format_data } =>
                PduView::FormatDataResponse { msg_flags: *msg_flags, format_data: format_data@ },
            ClipboardFile::FileContentsRequest {
                stream_id,
                list_index,
                dw_flags,
                cb_requested,
                n_position_low,
                n_position_high,
                have_clip_data_id,
                clip_data_id,
            } => PduView::FileContentsRequest {
                stream_id: *stream_id,
                list_index: *list_index,
                dw_flags: *dw_flags,
                cb_requested: *cb_requested,
                n_position_low: *n_position_low,
                n_position_high: *n_position_high,
                have_clip_data_id: *have_clip_data_id,
                clip_data_id: *clip_data_id,
            },
            ClipboardFile::FileContentsResponse { stream_id, payload } =>
                PduView::FileContentsResponse {
                    stream_id: *stream_id,
                    payload: payload_option_view(*payload),
                },
        }
    }
}

/// The 64-bit file position carried by two 32-bit wire halves.
pub open spec fn joined_position(low: u32, high: u32) -> u64 {
    ((high as u64) << 32u64) | (low as u64)
}

/// What a file-contents request PDU asks for, read back from its wire fields:
/// `None` for any other PDU or for an unknown flag.
pub open spec fn decoded_kind(v: PduView) -> Option<FileContentsRequestType> {
    match v {
        PduView::FileContentsRequest { dw_flags, cb_requested, n_position_low, n_position_high, .. } =>
            if dw_flags == CB_FILECONTENTS_SIZE {
                Some(FileContentsRequestType::Size)
            } else if dw_flags == CB_FILECONTENTS_RANGE {
                Some(FileContentsRequestType::Range(joined_position(n_position_low, n_position_high), cb_requested))
            } else {
                None
            },
        _ => None,
    }
}

proof fn lemma_join_is_sum(low: u64, high: u64)
    by (bit_vector)
    requires
        low <= 0xFFFF_FFFF,
        high <= 0xFFFF_FFFF,
    ensures
        (high << 32u64) | low == high * 0x1_0000_0000u64 + low,
{
}

/// Joins the two 32-bit halves of a wire position into the 64-bit offset.
pub fn join_position(low: u32, high: u32) -> (r: u64)
    ensures
        r == joined_position(low, high),
        r as int == high as int * 0x1_0000_0000 + low as int,
{
    proof {
        lemma_join_is_sum(low as u64, high as u64);
    }
    ((high as u64) << 32u64) | (low as u64)
}

impl ClipboardFile {
    /// Reads back what a received file-contents request asks for.
    ///
    /// Returns `None` for any other PDU and for a request whose flag is
    /// neither `CB_FILECONTENTS_SIZE` nor `CB_FILECONTENTS_RANGE`.
    pub fn requested_kind(&self) -> (r: Option<FileContentsRequestType>)
        ensures
            r == decoded_kind(self@),
    {
        match self {
            ClipboardFile::FileContentsRequest {
                dw_flags,
                cb_requested,
                n_position_low,
                n_position_high,
                ..
            } => {
                if *dw_flags == CB_FILECONTENTS_SIZE {
                    Some(FileContentsRequestType::Size)
                } else if *dw_flags == CB_FILECONTENTS_RANGE {
                    let offset = join_position(*n_position_low, *n_position_high);
                    Some(FileContentsRequestType::Range(offset, *cb_requested))
                } else {
                    None
                }
            },
            _ => None,
        }
    }
}

} // verus!
