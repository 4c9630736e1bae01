//! Laws of the wire encoding and of stream correlation.
use vstd::prelude::*;

use crate::client_context::{
    after_request, after_resolve, kind_allowed, ClientCapability,
    ClientStateView,
};
use crate::clipboard_file::{
    format_data_response_view, ClipboardPayload, FileContentsRequest,
    FileContentsRequestType, FormatListResponse,
};
use crate::pdu::{
    decoded_kind, joined_position, PduView, CB_FILECONTENTS_SIZE, CB_REQUEST_SIZE,
    CB_RESPONSE_FAIL, CB_RESPONSE_OK,
};

verus! {

proof fn lemma_split_join(offset: u64)
    by (bit_vector)
    ensures
        (((offset >> 32u64) as u32 as u64) << 32u64) | ((offset & 0xFFFF_FFFFu64) as u32 as u64)
            == offset,
{
}

/// Splitting a range offset into its two 32-bit wire halves loses nothing:
/// joining them as `(high << 32) | low` gives the offset back, the requested
/// byte count is the range's size, and the request decodes to the same range.
pub proof fn lemma_range_request_round_trip(request: FileContentsRequest)
    requires
        request.req_type_spec() is Range,
    ensures
        request.pdu_view() matches PduView::FileContentsRequest {
            n_position_low,
            n_position_high,
            cb_requested,
            ..
        } && joined_position(n_position_low, n_position_high) == request.req_type_spec()->0
            && cb_requested == request.req_type_spec()->1,
        decoded_kind(request.pdu_view()) == Some(request.req_type_spec()),
{
    lemma_split_join(request.req_type_spec()->0);
}

/// A size query carries the size flag, asks for the 8 bytes of a 64-bit size,
/// and has both position halves at zero.
pub proof fn lemma_size_request_encoding(request: FileContentsRequest)
    requires
        request.req_type_spec() is Size,
    ensures
        request.pdu_view() matches PduView::FileContentsRequest {
            dw_flags,
            cb_requested,
            n_position_low,
            n_position_high,
            ..
        } && dw_flags == CB_FILECONTENTS_SIZE && cb_requested == CB_REQUEST_SIZE && cb_requested
            == 8 && n_position_low == 0 && n_position_high == 0,
        decoded_kind(request.pdu_view()) == Some(FileContentsRequestType::Size),
{
}

/// A missing payload gives a failure response with no data; a present one,
/// empty or not, gives a success response with exactly its bytes.
pub proof fn lemma_format_data_response(data: Option<Seq<u8>>)
    ensures
        data is None ==> format_data_response_view(data) == (PduView::FormatDataResponse {
            msg_flags: CB_RESPONSE_FAIL,
            format_data: Seq::empty(),
        }),
        data matches Some(d) ==> format_data_response_view(data) == (PduView::FormatDataResponse {
            msg_flags: CB_RESPONSE_OK,
            format_data: d,
        }),
{
}

/// Acknowledging a format list with success gives the OK flag, and without
/// success the FAIL flag.
pub proof fn lemma_format_list_response_flags()
    ensures
        (FormatListResponse { success: true }).pdu_view() == (PduView::FormatListResponse {
            msg_flags: CB_RESPONSE_OK,
        }),
        (FormatListResponse { success: false }).pdu_view() == (PduView::FormatListResponse {
            msg_flags: CB_RESPONSE_FAIL,
        }),
{
}

/// A range request is refused exactly when its end lies beyond 2^32 - 1 and
/// the local capabilities lack huge-file support.
pub proof fn lemma_range_capability_gate(caps: Set<ClientCapability>, offset: u64, size: u64)
    ensures
        !kind_allowed(caps, FileContentsRequestType::Range(offset, size)) <==> (offset as int
            + size as int > 0xFFFF_FFFF && !caps.contains(ClientCapability::HugeFileSupport)),
        kind_allowed(caps, FileContentsRequestType::Size),
{
}

/// A response on a stream that was requested resolves once: after that
/// resolution the stream is no longer outstanding, so a second response on
/// it is unmatched. Other streams are untouched.
pub proof fn lemma_resolve_exactly_once(s: ClientStateView, request: FileContentsRequest)
    ensures
        after_request(s, request).pending.contains_key(request.stream_spec()),
        !after_resolve(after_request(s, request), request.stream_spec()).pending.contains_key(
            request.stream_spec(),
        ),
        forall|id: u32|
            id != request.stream_spec() ==> (after_resolve(
                after_request(s, request),
                request.stream_spec(),
            ).pending.contains_key(id) <==> s.pending.contains_key(id)),
{
}

} // verus!
