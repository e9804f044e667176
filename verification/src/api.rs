//! The boundary operations.
//!
//! Each function mirrors one exported call of the boundary: it takes the
//! shared [`NominalService`], the calling thread's [`ErrorSlot`], and the
//! call's arguments as plain values. Raw-pointer handling stays in the
//! embedding shell, which passes pointer text as a [`TextArg`] and a
//! null-output-pointer flag, and performs the engine's asynchronous work
//! on the recipes and sample batches these functions return.

use vstd::prelude::*;
use crate::codes::{SUCCESS, ERROR_GENERIC, ERROR_INVALID_HANDLE, ERROR_INVALID_PARAM,
    ERROR_RUNTIME};
use crate::errslot::{ErrorSlot, copy_len, last_error_code, terminated_copy};
use crate::numfmt::{dec_chars, u64_to_string};
use crate::registry::{NominalService, StreamState, WriterState};
use crate::tags::{parse_tags_csv, spec_parse_tags, tag_pairs_view};

verus! {

/// A null-terminated text argument as the shell decoded it: a null
/// pointer, text that was not valid UTF-8, or the decoded text.
pub enum TextArg {
    /// The caller passed a null pointer.
    Null,
    /// The caller's bytes were not valid UTF-8.
    Invalid,
    /// The decoded text.
    Text(String),
}

impl TextArg {
    /// The decoded text, where there is one.
    pub open spec fn text(&self) -> Seq<char> {
        match self {
            TextArg::Text(s) => s@,
            _ => Seq::empty(),
        }
    }
}

/// Validates a stream handle and reports the flush outcome. The engine
/// drains the stream's buffers asynchronously; an engine failure the
/// embedding observes afterwards is mapped by [`report_runtime_failure`].
pub fn nominal_flush(service: &NominalService, slot: &mut ErrorSlot, stream_handle: u64) -> (r:
    i32)
    ensures
        service.streams@.contains_key(stream_handle) ==> r == SUCCESS && final(slot).pending()
            is None,
        !service.streams@.contains_key(stream_handle) ==> r == ERROR_INVALID_HANDLE && final(slot).pending() == Some("Invalid stream handle: "@ + dec_chars(stream_handle as int)),
{
    slot.clear();
    if service.streams.contains_key(&stream_handle) {
        SUCCESS
    } else {
        slot.set("Invalid stream handle: ".to_owned().concat(u64_to_string(stream_handle).as_str()));
        ERROR_INVALID_HANDLE
    }
}

/// Validates a writer handle for a flush. Flushing a writer drains its
/// whole stream: writer-level flush has stream-level granularity.
pub fn nominal_flush_channel(service: &NominalService, slot: &mut ErrorSlot, writer_handle: u64) -> (r:
    i32)
    ensures
        service.writers@.contains_key(writer_handle) ==> r == SUCCESS && final(slot).pending()
            is None,
        !service.writers@.contains_key(writer_handle) ==> r == ERROR_INVALID_HANDLE && final(slot).pending() == Some("Invalid writer handle: "@ + dec_chars(writer_handle as int)),
{
    slot.clear();
    if service.writers.contains_key(&writer_handle) {
        SUCCESS
    } else {
        slot.set("Invalid writer handle: ".to_owned().concat(u64_to_string(writer_handle).as_str()));
        ERROR_INVALID_HANDLE
    }
}

/// Maps an engine failure to the boundary's runtime error: stores the
/// diagnostic and returns the matching code.
pub fn report_runtime_failure(slot: &mut ErrorSlot, message: String) -> (r: i32)
    ensures
        r == ERROR_RUNTIME,
        final(slot).pending() == Some(message@),
{
    slot.set(message);
    ERROR_RUNTIME
}

/// The number of live stream handles.
pub fn nominal_get_active_streams(service: &NominalService) -> (r: i32)
    ensures
        service.streams@.len() <= i32::MAX ==> r == service.streams@.len() as i32,
{
    #[verifier::truncate]
    (service.streams.len() as i32)
}

/// The number of live writer handles.
pub fn nominal_get_active_writers(service: &NominalService) -> (r: i32)
    ensures
        service.writers@.len() <= i32::MAX ==> r == service.writers@.len() as i32,
{
    #[verifier::truncate]
    (service.writers.len() as i32)
}

/// One if the stream handle is live, zero otherwise.
pub fn nominal_is_stream_valid(service: &NominalService, stream_handle: u64) -> (r: i32)
    ensures
        r == if service.streams@.contains_key(stream_handle) {
            1i32
        } else {
            0i32
        },
{
    if service.streams.contains_key(&stream_handle) {
        1
    } else {
        0
    }
}

/// One if the writer handle is live, zero otherwise.
pub fn nominal_is_writer_valid(service: &NominalService, writer_handle: u64) -> (r: i32)
    ensures
        r == if service.writers@.contains_key(writer_handle) {
            1i32
        } else {
            0i32
        },
{
    if service.writers.contains_key(&writer_handle) {
        1
    } else {
        0
    }
}

/// Removes a writer from its registry. No implicit flush: durability
/// requires an explicit flush before closing.
pub fn nominal_close_channel(service: &mut NominalService, slot: &mut ErrorSlot, writer_handle: u64) -> (r:
    i32)
    requires
        old(service).wf(),
    ensures
        final(service).wf(),
        final(service).streams@ == old(service).streams@,
        final(service).next_stream_handle == old(service).next_stream_handle,
        final(service).next_writer_handle == old(service).next_writer_handle,
        final(service).issued_stream_handles@ == old(service).issued_stream_handles@,
        final(service).issued_writer_handles@ == old(service).issued_writer_handles@,
        old(service).writers@.contains_key(writer_handle) ==> r == SUCCESS && final(service).writers@ == old(service).writers@.remove(writer_handle) && final(slot).pending()
            is None,
        !old(service).writers@.contains_key(writer_handle) ==> r == ERROR_INVALID_HANDLE && final(service).writers@ == old(service).writers@ && final(slot).pending() == Some("Invalid writer handle: "@ + dec_chars(writer_handle as int)),
{
    slot.clear();
    match service.writers.remove(&writer_handle) {
        Some(_) => SUCCESS,
        None => {
            slot.set("Invalid writer handle: ".to_owned().concat(u64_to_string(writer_handle).as_str()));
            ERROR_INVALID_HANDLE
        },
    }
}

/// Removes a stream from its registry. A writer still bound to the
/// stream keeps its recipe: shutdown does not cascade.
pub fn nominal_shutdown(service: &mut NominalService, slot: &mut ErrorSlot, stream_handle: u64) -> (r:
    i32)
    requires
        old(service).wf(),
    ensures
        final(service).wf(),
        final(service).writers@ == old(service).writers@,
        final(service).next_stream_handle == old(service).next_stream_handle,
        final(service).next_writer_handle == old(service).next_writer_handle,
        final(service).issued_stream_handles@ == old(service).issued_stream_handles@,
        final(service).issued_writer_handles@ == old(service).issued_writer_handles@,
        old(service).streams@.contains_key(stream_handle) ==> r == SUCCESS && final(service).streams@ == old(service).streams@.remove(stream_handle) && final(slot).pending()
            is None,
        !old(service).streams@.contains_key(stream_handle) ==> r == ERROR_INVALID_HANDLE && final(service).streams@ == old(service).streams@ && final(slot).pending() == Some("Invalid stream handle: "@ + dec_chars(stream_handle as int)),
{
    slot.clear();
    match service.streams.remove(&stream_handle) {
        Some(_) => SUCCESS,
        None => {
            slot.set("Invalid stream handle: ".to_owned().concat(u64_to_string(stream_handle).as_str()));
            ERROR_INVALID_HANDLE
        },
    }
}

/// Copies the pending diagnostic, truncated and null-terminated, into a
/// buffer image. Reading does not clear the slot.
pub fn nominal_get_last_error(slot: &ErrorSlot, buffer_null: bool, buffer_size: usize) -> (r: (
    i32,
    Vec<u8>,
))
    ensures
        buffer_null || buffer_size == 0 ==> r.0 == ERROR_INVALID_PARAM && r.1@ == Seq::<
            u8,
        >::empty(),
        !buffer_null && buffer_size > 0 ==> r.0 == last_error_code(*slot),
        !buffer_null && buffer_size > 0 && slot.pending() is None ==> r.1@ == seq![0u8],
        (!buffer_null && buffer_size > 0 && slot.pending() is Some) ==> r.1@
            == vstd::utf8::encode_utf8(slot.pending().unwrap()).take(
            copy_len(vstd::utf8::encode_utf8(slot.pending().unwrap()), buffer_size as int),
        ).push(0u8) && r.1@.len() <= buffer_size,
{
    if buffer_null || buffer_size == 0 {
        return (ERROR_INVALID_PARAM, Vec::new());
    }
    match slot.pending_bytes() {
        None => {
            let mut out: Vec<u8> = Vec::new();
            out.push(0u8);
            assert(out@ =~= seq![0u8]);
            (ERROR_GENERIC, out)
        },
        Some(bytes) => (SUCCESS, terminated_copy(&bytes, buffer_size)),
    }
}

/// Copies the library version, truncated and null-terminated, into a
/// buffer image.
pub fn nominal_get_version(buffer_null: bool, buffer_size: usize) -> (r: (i32, Vec<u8>))
    ensures
        buffer_null || buffer_size == 0 ==> r.0 == ERROR_INVALID_PARAM && r.1@ == Seq::<
            u8,
        >::empty(),
        !buffer_null && buffer_size > 0 ==> r.0 == SUCCESS && r.1@ == vstd::utf8::encode_utf8(
            "0.1.0"@,
        ).take(copy_len(vstd::utf8::encode_utf8("0.1.0"@), buffer_size as int)).push(0u8)
            && r.1@.len() <= buffer_size,
{
    if buffer_null || buffer_size == 0 {
        return (ERROR_INVALID_PARAM, Vec::new());
    }
    let bytes = "0.1.0".as_bytes_vec();
    (SUCCESS, terminated_copy(&bytes, buffer_size))
}

/// Copies a writer's channel name, truncated and null-terminated, into a
/// buffer image.
pub fn nominal_get_channel_name(
    service: &NominalService,
    slot: &mut ErrorSlot,
    writer_handle: u64,
    buffer_null: bool,
    buffer_size: usize,
) -> (r: (i32, Vec<u8>))
    ensures
        buffer_null || buffer_size == 0 ==> r.0 == ERROR_INVALID_PARAM && final(slot).pending()
            == Some("Invalid buffer parameters"@),
        !buffer_null && buffer_size > 0 && !service.writers@.contains_key(writer_handle) ==> r.0
            == ERROR_INVALID_HANDLE && final(slot).pending() == Some("Invalid writer handle: "@ + dec_chars(writer_handle as int)),
        !buffer_null && buffer_size > 0 && service.writers@.contains_key(writer_handle) ==> r.0
            == SUCCESS && final(slot).pending() is None && r.1@ == vstd::utf8::encode_utf8(
            service.writers@[writer_handle].name@,
        ).take(
            copy_len(
                vstd::utf8::encode_utf8(service.writers@[writer_handle].name@),
                buffer_size as int,
            ),
        ).push(0u8) && r.1@.len() <= buffer_size,
{
    slot.clear();
    if buffer_null || buffer_size == 0 {
        slot.set("Invalid buffer parameters".to_owned());
        return (ERROR_INVALID_PARAM, Vec::new());
    }
    match service.writers.get(&writer_handle) {
        None => {
            slot.set("Invalid writer handle: ".to_owned().concat(u64_to_string(writer_handle).as_str()));
            (ERROR_INVALID_HANDLE, Vec::new())
        },
        Some(ws) => {
            let bytes = ws.name.as_str().as_bytes_vec();
            (SUCCESS, terminated_copy(&bytes, buffer_size))
        },
    }
}

/// The status that stream construction returns, by check order.
pub open spec fn init_code(
    out_handle_null: bool,
    token: TextArg,
    dataset_rid: TextArg,
    fallback_path: TextArg,
    env_token: Option<String>,
) -> i32 {
    if out_handle_null {
        ERROR_INVALID_PARAM
    } else if (token matches TextArg::Invalid) {
        ERROR_INVALID_PARAM
    } else if !(dataset_rid matches TextArg::Text(_)) {
        ERROR_INVALID_PARAM
    } else if (fallback_path matches TextArg::Invalid) {
        ERROR_INVALID_PARAM
    } else if (token matches TextArg::Text(_)) || env_token is Some || (fallback_path
        matches TextArg::Text(_)) {
        SUCCESS
    } else {
        ERROR_INVALID_PARAM
    }
}

/// The diagnostic that stream construction leaves pending.
pub open spec fn init_message(
    out_handle_null: bool,
    token: TextArg,
    dataset_rid: TextArg,
    fallback_path: TextArg,
    env_token: Option<String>,
) -> Option<Seq<char>> {
    if out_handle_null {
        Some("Output handle pointer is null"@)
    } else if (token matches TextArg::Invalid) {
        Some("Invalid token"@)
    } else if !(dataset_rid matches TextArg::Text(_)) {
        Some("Invalid dataset RID"@)
    } else if (fallback_path matches TextArg::Invalid) {
        Some("Invalid fallback path"@)
    } else if (token matches TextArg::Text(_)) || env_token is Some || (fallback_path
        matches TextArg::Text(_)) {
        None
    } else {
        Some("Either token or fallback file path must be provided"@)
    }
}

/// Constructs a stream: decides the destination recipe from the explicit
/// credential, the environment-provided credential, and the fallback
/// path, then registers it under a fresh handle. Credential and
/// identifier validation belong to the engine, not to this layer.
pub fn nominal_init(
    service: &mut NominalService,
    slot: &mut ErrorSlot,
    out_handle_null: bool,
    token: TextArg,
    dataset_rid: TextArg,
    fallback_path: TextArg,
    env_token: Option<String>,
) -> (r: (i32, u64))
    requires
        old(service).wf(),
        old(service).next_stream_handle < u64::MAX,
    ensures
        final(service).wf(),
        r.0 == init_code(out_handle_null, token, dataset_rid, fallback_path, env_token),
        final(slot).pending() == init_message(
            out_handle_null,
            token,
            dataset_rid,
            fallback_path,
            env_token,
        ),
        final(service).writers@ == old(service).writers@,
        final(service).next_writer_handle == old(service).next_writer_handle,
        final(service).issued_writer_handles@ == old(service).issued_writer_handles@,
        r.0 == SUCCESS ==> r.1 == old(service).next_stream_handle && final(service).next_stream_handle == old(service).next_stream_handle + 1 && final(service).issued_stream_handles@ == old(service).issued_stream_handles@.push(r.1) && final(service).streams@.contains_key(r.1) && final(service).streams@ == old(service).streams@.insert(
            r.1,
            final(service).streams@[r.1],
        ) && final(service).streams@[r.1].uses_core == ((token matches TextArg::Text(_))
            || env_token is Some) && final(service).streams@[r.1].dataset_rid@
            == dataset_rid.text() && (match final(service).streams@[r.1].fallback_path {
            Some(p) => (fallback_path matches TextArg::Text(_)) && p@ == fallback_path.text(),
            None => !(fallback_path matches TextArg::Text(_)),
        }),
        r.0 != SUCCESS ==> r.1 == 0 && final(service).streams@ == old(service).streams@ && final(service).next_stream_handle == old(service).next_stream_handle && final(service).issued_stream_handles@ == old(service).issued_stream_handles@,
{
    slot.clear();
    if out_handle_null {
        slot.set("Output handle pointer is null".to_owned());
        return (ERROR_INVALID_PARAM, 0);
    }
    let token_text: Option<String> = match token {
        TextArg::Null => None,
        TextArg::Invalid => {
            slot.set("Invalid token".to_owned());
            return (ERROR_INVALID_PARAM, 0);
        },
        TextArg::Text(s) => Some(s),
    };
    let rid: String = match dataset_rid {
        TextArg::Text(s) => s,
        TextArg::Null => {
            slot.set("Invalid dataset RID".to_owned());
            return (ERROR_INVALID_PARAM, 0);
        },
        TextArg::Invalid => {
            slot.set("Invalid dataset RID".to_owned());
            return (ERROR_INVALID_PARAM, 0);
        },
    };
    let fallback: Option<String> = match fallback_path {
        TextArg::Null => None,
        TextArg::Invalid => {
            slot.set("Invalid fallback path".to_owned());
            return (ERROR_INVALID_PARAM, 0);
        },
        TextArg::Text(s) => Some(s),
    };
    let uses_core = token_text.is_some() || env_token.is_some();
    if !uses_core && fallback.is_none() {
        slot.set("Either token or fallback file path must be provided".to_owned());
        return (ERROR_INVALID_PARAM, 0);
    }
    let state = StreamState { uses_core, dataset_rid: rid, fallback_path: fallback };
    let h = service.allocate_stream_handle();
    service.streams.insert(h, state);
    (SUCCESS, h)
}

/// The status that writer creation returns, by check order.
pub open spec fn create_channel_code(
    out_handle_null: bool,
    stream_known: bool,
    channel_name: TextArg,
    tags_csv: TextArg,
) -> i32 {
    if out_handle_null {
        ERROR_INVALID_PARAM
    } else if !stream_known {
        ERROR_INVALID_HANDLE
    } else if !(channel_name matches TextArg::Text(_)) {
        ERROR_INVALID_PARAM
    } else if (tags_csv matches TextArg::Invalid) {
        ERROR_INVALID_PARAM
    } else {
        SUCCESS
    }
}

/// The diagnostic that writer creation leaves pending.
pub open spec fn create_channel_message(
    out_handle_null: bool,
    stream_known: bool,
    stream_handle: u64,
    channel_name: TextArg,
    tags_csv: TextArg,
) -> Option<Seq<char>> {
    if out_handle_null {
        Some("Output handle pointer is null"@)
    } else if !stream_known {
        Some("Invalid stream handle: "@ + dec_chars(stream_handle as int))
    } else if !(channel_name matches TextArg::Text(_)) {
        Some("Invalid channel name"@)
    } else if (tags_csv matches TextArg::Invalid) {
        Some("Invalid tags CSV"@)
    } else {
        None
    }
}

fn own_pairs(v: &Vec<(&str, &str)>) -> (r: Vec<(String, String)>)
    ensures
        r@.map_values(|p: (String, String)| (p.0@, p.1@)) == tag_pairs_view(v@),
{
    let mut r: Vec<(String, String)> = Vec::new();
    let mut i: usize = 0;
    while i < v.len()
        invariant
            i <= v@.len(),
            r@.len() == i,
            forall|k: int|
                0 <= k < i ==> (#[trigger] r@[k]).0@ == v@[k].0@ && r@[k].1@ == v@[k].1@,
        decreases v@.len() - i,
    {
        let p0 = v[i].0.to_owned();
        let p1 = v[i].1.to_owned();
        r.push((p0, p1));
        i = i + 1;
    }
    proof {
        assert(r@.map_values(|p: (String, String)| (p.0@, p.1@)) =~~= tag_pairs_view(v@));
    }
    r
}

/// Creates a channel writer on a live stream: parses the tag string into
/// a descriptor and registers the writer recipe under a fresh handle.
pub fn nominal_create_channel(
    service: &mut NominalService,
    slot: &mut ErrorSlot,
    out_handle_null: bool,
    stream_handle: u64,
    channel_name: TextArg,
    tags_csv: TextArg,
) -> (r: (i32, u64))
    requires
        old(service).wf(),
        old(service).next_writer_handle < u64::MAX,
    ensures
        final(service).wf(),
        r.0 == create_channel_code(
            out_handle_null,
            old(service).streams@.contains_key(stream_handle),
            channel_name,
            tags_csv,
        ),
        final(slot).pending() == create_channel_message(
            out_handle_null,
            old(service).streams@.contains_key(stream_handle),
            stream_handle,
            channel_name,
            tags_csv,
        ),
        final(service).streams@ == old(service).streams@,
        final(service).next_stream_handle == old(service).next_stream_handle,
        final(service).issued_stream_handles@ == old(service).issued_stream_handles@,
        r.0 == SUCCESS ==> r.1 == old(service).next_writer_handle && final(service).next_writer_handle == old(service).next_writer_handle + 1 && final(service).issued_writer_handles@ == old(service).issued_writer_handles@.push(r.1) && final(service).writers@.contains_key(r.1) && final(service).writers@ == old(service).writers@.insert(
            r.1,
            final(service).writers@[r.1],
        ) && final(service).writers@[r.1].stream_handle == stream_handle && final(service).writers@[r.1].name@ == channel_name.text() && final(service).writers@[r.1].tags_view()
            == spec_parse_tags(
            if tags_csv matches TextArg::Text(_) {
                tags_csv.text()
            } else {
                Seq::empty()
            },
        ),
        r.0 != SUCCESS ==> r.1 == 0 && final(service).writers@ == old(service).writers@ && final(service).next_writer_handle == old(service).next_writer_handle && final(service).issued_writer_handles@ == old(service).issued_writer_handles@,
{
    slot.clear();
    if out_handle_null {
        slot.set("Output handle pointer is null".to_owned());
        return (ERROR_INVALID_PARAM, 0);
    }
    if !service.streams.contains_key(&stream_handle) {
        slot.set("Invalid stream handle: ".to_owned().concat(u64_to_string(stream_handle).as_str()));
        return (ERROR_INVALID_HANDLE, 0);
    }
    let name: String = match channel_name {
        TextArg::Text(s) => s,
        TextArg::Null => {
            slot.set("Invalid channel name".to_owned());
            return (ERROR_INVALID_PARAM, 0);
        },
        TextArg::Invalid => {
            slot.set("Invalid channel name".to_owned());
            return (ERROR_INVALID_PARAM, 0);
        },
    };
    let tags_text: String = match tags_csv {
        TextArg::Null => String::new(),
        TextArg::Invalid => {
            slot.set("Invalid tags CSV".to_owned());
            return (ERROR_INVALID_PARAM, 0);
        },
        TextArg::Text(s) => s,
    };
    let pairs = parse_tags_csv(tags_text.as_str());
    let owned = own_pairs(&pairs);
    let state = WriterState { stream_handle, name, tags: owned };
    let h = service.allocate_writer_handle();
    service.writers.insert(h, state);
    (SUCCESS, h)
}

/// The samples of one batch, in input order.
pub open spec fn zip_samples<V>(ts: Seq<u64>, vs: Seq<V>) -> Seq<(u64, V)> {
    Seq::new(ts.len(), |i: int| (ts[i], vs[i]))
}

/// A boolean batch as the engine observes it: a raw byte is true exactly
/// when it is non-zero.
pub open spec fn bool_samples(ts: Seq<u64>, vs: Seq<u8>) -> Seq<(u64, bool)> {
    Seq::new(ts.len(), |i: int| (ts[i], vs[i] != 0))
}

/// The first `n` samples of a text batch.
pub open spec fn text_samples(ts: Seq<u64>, vs: Seq<TextArg>, n: int) -> Seq<(u64, Seq<char>)> {
    Seq::new(n as nat, |i: int| (ts[i], vs[i].text()))
}

/// The view of an owned text batch.
pub open spec fn text_samples_view(r: Seq<(u64, String)>) -> Seq<(u64, Seq<char>)> {
    r.map_values(|p: (u64, String)| (p.0, p.1@))
}

/// The index of the first element that is not decoded text, or `-1`.
pub open spec fn first_non_text(vs: Seq<TextArg>) -> int
    decreases vs.len(),
{
    if vs.len() == 0 {
        -1
    } else if !(vs[0] matches TextArg::Text(_)) {
        0
    } else if first_non_text(vs.drop_first()) == -1 {
        -1
    } else {
        1 + first_non_text(vs.drop_first())
    }
}

proof fn lemma_first_non_text_at(vs: Seq<TextArg>, j: int)
    requires
        0 <= j < vs.len(),
        !(vs[j] matches TextArg::Text(_)),
        forall|i: int| 0 <= i < j ==> (#[trigger] vs[i]) matches TextArg::Text(_),
    ensures
        first_non_text(vs) == j,
    decreases vs.len(),
{
    if j == 0 {
    } else {
        assert(forall|i: int|
            0 <= i < vs.drop_first().len() ==> vs.drop_first()[i] == vs[i + 1]);
        lemma_first_non_text_at(vs.drop_first(), j - 1);
    }
}

proof fn lemma_first_non_text_none(vs: Seq<TextArg>)
    requires
        forall|i: int| 0 <= i < vs.len() ==> (#[trigger] vs[i]) matches TextArg::Text(_),
    ensures
        first_non_text(vs) == -1,
    decreases vs.len(),
{
    if vs.len() == 0 {
    } else {
        assert(forall|i: int|
            0 <= i < vs.drop_first().len() ==> vs.drop_first()[i] == vs[i + 1]);
        lemma_first_non_text_none(vs.drop_first());
    }
}

/// Pushes a batch of 64-bit float samples, the values given as their
/// IEEE-754 bit patterns: floating point stays outside the verified
/// library, and the embedding converts at the boundary. Returns the
/// samples the engine is to observe, in input order.
pub fn nominal_push_double_batch(
    service: &NominalService,
    slot: &mut ErrorSlot,
    writer_handle: u64,
    timestamps: Option<&Vec<u64>>,
    values_bits: Option<&Vec<u64>>,
    count: usize,
) -> (r: (i32, Vec<(u64, u64)>))
    requires
        timestamps matches Some(t) ==> t@.len() == count,
        values_bits matches Some(v) ==> v@.len() == count,
    ensures
        count == 0 ==> r.0 == SUCCESS && r.1@ == Seq::<(u64, u64)>::empty() && final(slot).pending() is None,
        count > 0 && (timestamps is None || values_bits is None) ==> r.0 == ERROR_INVALID_PARAM
            && final(slot).pending() == Some("Null pointer provided for data arrays"@) && r.1@
            == Seq::<(u64, u64)>::empty(),
        (count > 0 && timestamps is Some && values_bits is Some
            && !service.writers@.contains_key(writer_handle)) ==> r.0 == ERROR_INVALID_HANDLE
            && final(slot).pending() == Some("Invalid writer handle: "@ + dec_chars(writer_handle as int)) && r.1@ == Seq::<
            (u64, u64),
        >::empty(),
        (count > 0 && timestamps is Some && values_bits is Some
            && service.writers@.contains_key(writer_handle)) ==> r.0 == SUCCESS && final(slot).pending() is None && r.1@ == zip_samples((timestamps->0)@, (values_bits->0)@),
{
    slot.clear();
    if count == 0 {
        return (SUCCESS, Vec::new());
    }
    let (ts, vs) = match (timestamps, values_bits) {
        (Some(t), Some(v)) => (t, v),
        _ => {
            slot.set("Null pointer provided for data arrays".to_owned());
            return (ERROR_INVALID_PARAM, Vec::new());
        },
    };
    if !service.writers.contains_key(&writer_handle) {
        slot.set("Invalid writer handle: ".to_owned().concat(u64_to_string(writer_handle).as_str()));
        return (ERROR_INVALID_HANDLE, Vec::new());
    }
    let mut out: Vec<(u64, u64)> = Vec::new();
    let mut i: usize = 0;
    while i < count
        invariant
            i <= count,
            ts@.len() == count,
            vs@.len() == count,
            out@.len() == i,
            forall|k: int| 0 <= k < i ==> out@[k] == (ts@[k], vs@[k]),
        decreases count - i,
    {
        out.push((ts[i], vs[i]));
        i = i + 1;
    }
    assert(out@ =~= zip_samples(ts@, vs@));
    (SUCCESS, out)
}

/// Pushes a batch of signed 64-bit integer samples. Returns the samples
/// the engine is to observe, in input order.
pub fn nominal_push_int64_batch(
    service: &NominalService,
    slot: &mut ErrorSlot,
    writer_handle: u64,
    timestamps: Option<&Vec<u64>>,
    values: Option<&Vec<i64>>,
    count: usize,
) -> (r: (i32, Vec<(u64, i64)>))
    requires
        timestamps matches Some(t) ==> t@.len() == count,
        values matches Some(v) ==> v@.len() == count,
    ensures
        count == 0 ==> r.0 == SUCCESS && r.1@ == Seq::<(u64, i64)>::empty() && final(slot).pending() is None,
        count > 0 && (timestamps is None || values is None) ==> r.0 == ERROR_INVALID_PARAM
            && final(slot).pending() == Some("Null pointer provided for data arrays"@) && r.1@
            == Seq::<(u64, i64)>::empty(),
        (count > 0 && timestamps is Some && values is Some && !service.writers@.contains_key(
            writer_handle,
        )) ==> r.0 == ERROR_INVALID_HANDLE && final(slot).pending() == Some("Invalid writer handle: "@ + dec_chars(writer_handle as int)) && r.1@ == Seq::<(u64, i64)>::empty(),
        (count > 0 && timestamps is Some && values is Some && service.writers@.contains_key(
            writer_handle,
        )) ==> r.0 == SUCCESS && final(slot).pending() is None && r.1@ == zip_samples(
            (timestamps->0)@,
            (values->0)@,
        ),
{
    slot.clear();
    if count == 0 {
        return (SUCCESS, Vec::new());
    }
    let (ts, vs) = match (timestamps, values) {
        (Some(t), Some(v)) => (t, v),
        _ => {
            slot.set("Null pointer provided for data arrays".to_owned());
            return (ERROR_INVALID_PARAM, Vec::new());
        },
    };
    if !service.writers.contains_key(&writer_handle) {
        slot.set("Invalid writer handle: ".to_owned().concat(u64_to_string(writer_handle).as_str()));
        return (ERROR_INVALID_HANDLE, Vec::new());
    }
    let mut out: Vec<(u64, i64)> = Vec::new();
    let mut i: usize = 0;
    while i < count
        invariant
            i <= count,
            ts@.len() == count,
            vs@.len() == count,
            out@.len() == i,
            forall|k: int| 0 <= k < i ==> out@[k] == (ts@[k], vs@[k]),
        decreases count - i,
    {
        out.push((ts[i], vs[i]));
        i = i + 1;
    }
    assert(out@ =~= zip_samples(ts@, vs@));
    (SUCCESS, out)
}

/// Pushes a batch of boolean samples: a raw byte is true exactly when it
/// is non-zero. Returns the samples the engine is to observe, in input
/// order.
pub fn nominal_push_bool_batch(
    service: &NominalService,
    slot: &mut ErrorSlot,
    writer_handle: u64,
    timestamps: Option<&Vec<u64>>,
    values: Option<&Vec<u8>>,
    count: usize,
) -> (r: (i32, Vec<(u64, bool)>))
    requires
        timestamps matches Some(t) ==> t@.len() == count,
        values matches Some(v) ==> v@.len() == count,
    ensures
        count == 0 ==> r.0 == SUCCESS && r.1@ == Seq::<(u64, bool)>::empty() && final(slot).pending() is None,
        count > 0 && (timestamps is None || values is None) ==> r.0 == ERROR_INVALID_PARAM
            && final(slot).pending() == Some("Null pointer provided for data arrays"@) && r.1@
            == Seq::<(u64, bool)>::empty(),
        (count > 0 && timestamps is Some && values is Some && !service.writers@.contains_key(
            writer_handle,
        )) ==> r.0 == ERROR_INVALID_HANDLE && final(slot).pending() == Some("Invalid writer handle: "@ + dec_chars(writer_handle as int)) && r.1@ == Seq::<(u64, bool)>::empty(),
        (count > 0 && timestamps is Some && values is Some && service.writers@.contains_key(
            writer_handle,
        )) ==> r.0 == SUCCESS && final(slot).pending() is None && r.1@ == bool_samples(
            (timestamps->0)@,
            (values->0)@,
        ),
{
    slot.clear();
    if count == 0 {
        return (SUCCESS, Vec::new());
    }
    let (ts, vs) = match (timestamps, values) {
        (Some(t), Some(v)) => (t, v),
        _ => {
            slot.set("Null pointer provided for data arrays".to_owned());
            return (ERROR_INVALID_PARAM, Vec::new());
        },
    };
    if !service.writers.contains_key(&writer_handle) {
        slot.set("Invalid writer handle: ".to_owned().concat(u64_to_string(writer_handle).as_str()));
        return (ERROR_INVALID_HANDLE, Vec::new());
    }
    let mut out: Vec<(u64, bool)> = Vec::new();
    let mut i: usize = 0;
    while i < count
        invariant
            i <= count,
            ts@.len() == count,
            vs@.len() == count,
            out@.len() == i,
            forall|k: int| 0 <= k < i ==> out@[k] == (ts@[k], vs@[k] != 0),
        decreases count - i,
    {
        out.push((ts[i], vs[i] != 0));
        i = i + 1;
    }
    assert(out@ =~= bool_samples(ts@, vs@));
    (SUCCESS, out)
}

/// Pushes a batch of text samples, each element given as the shell
/// decoded it. The whole batch fails at the first element that is not
/// valid text, naming its index; elements before the failure are not
/// rolled back. Returns the samples the engine is to observe, in input
/// order.
pub fn nominal_push_string_batch(
    service: &NominalService,
    slot: &mut ErrorSlot,
    writer_handle: u64,
    timestamps: Option<&Vec<u64>>,
    values: Option<&Vec<TextArg>>,
    count: usize,
) -> (r: (i32, Vec<(u64, String)>))
    requires
        timestamps matches Some(t) ==> t@.len() == count,
        values matches Some(v) ==> v@.len() == count,
    ensures
        count == 0 ==> r.0 == SUCCESS && r.1@ == Seq::<(u64, String)>::empty() && final(slot).pending() is None,
        count > 0 && (timestamps is None || values is None) ==> r.0 == ERROR_INVALID_PARAM
            && final(slot).pending() == Some("Null pointer provided for data arrays"@) && r.1@
            == Seq::<(u64, String)>::empty(),
        (count > 0 && timestamps is Some && values is Some && !service.writers@.contains_key(
            writer_handle,
        )) ==> r.0 == ERROR_INVALID_HANDLE && final(slot).pending() == Some("Invalid writer handle: "@ + dec_chars(writer_handle as int)) && r.1@ == Seq::<(u64, String)>::empty(),
        (count > 0 && timestamps is Some && values is Some && service.writers@.contains_key(
            writer_handle,
        ) && first_non_text((values->0)@) == -1) ==> r.0 == SUCCESS && final(slot).pending()
            is None && text_samples_view(r.1@) == text_samples(
            (timestamps->0)@,
            (values->0)@,
            count as int,
        ),
        (count > 0 && timestamps is Some && values is Some && service.writers@.contains_key(
            writer_handle,
        ) && first_non_text((values->0)@) != -1) ==> r.0 == ERROR_INVALID_PARAM
            && text_samples_view(r.1@) == text_samples(
            (timestamps->0)@,
            (values->0)@,
            first_non_text((values->0)@),
        ) && final(slot).pending() == Some(
            "Invalid string at index "@ + dec_chars(first_non_text((values->0)@)),
        ),
{
    slot.clear();
    if count == 0 {
        return (SUCCESS, Vec::new());
    }
    let (ts, vs) = match (timestamps, values) {
        (Some(t), Some(v)) => (t, v),
        _ => {
            slot.set("Null pointer provided for data arrays".to_owned());
            return (ERROR_INVALID_PARAM, Vec::new());
        },
    };
    if !service.writers.contains_key(&writer_handle) {
        slot.set("Invalid writer handle: ".to_owned().concat(u64_to_string(writer_handle).as_str()));
        return (ERROR_INVALID_HANDLE, Vec::new());
    }
    let mut out: Vec<(u64, String)> = Vec::new();
    let mut i: usize = 0;
    while i < count
        invariant
            i <= count,
            count > 0,
            timestamps == Some(ts),
            values == Some(vs),
            service.writers@.contains_key(writer_handle),
            slot.pending() is None,
            ts@.len() == count,
            vs@.len() == count,
            out@.len() == i,
            forall|k: int| 0 <= k < i ==> (#[trigger] vs@[k]) matches TextArg::Text(_),
            forall|k: int|
                0 <= k < i ==> (#[trigger] out@[k]).0 == ts@[k] && out@[k].1@ == vs@[k].text(),
        decreases count - i,
    {
        match &vs[i] {
            TextArg::Text(s) => {
                out.push((ts[i], s.clone()));
            },
            _ => {
                proof {
                    lemma_first_non_text_at(vs@, i as int);
                }
                let msg = "Invalid string at index ".to_owned().concat(
                    u64_to_string(i as u64).as_str(),
                );
                slot.set(msg);
                assert(text_samples_view(out@) =~~= text_samples(ts@, vs@, i as int));
                return (ERROR_INVALID_PARAM, out);
            },
        }
        i = i + 1;
    }
    proof {
        lemma_first_non_text_none(vs@);
    }
    assert(text_samples_view(out@) =~~= text_samples(ts@, vs@, count as int));
    (SUCCESS, out)
}

} // verus!
