//! Boundary operations: handles, registries, error slots, batches.

use nominal_bridge::api::TextArg;
use nominal_bridge::api::nominal_close_channel;
use nominal_bridge::api::nominal_create_channel;
use nominal_bridge::api::nominal_flush;
use nominal_bridge::api::nominal_flush_channel;
use nominal_bridge::api::nominal_get_active_streams;
use nominal_bridge::api::nominal_get_active_writers;
use nominal_bridge::api::nominal_get_channel_name;
use nominal_bridge::api::nominal_get_last_error;
use nominal_bridge::api::nominal_get_version;
use nominal_bridge::api::nominal_init;
use nominal_bridge::api::nominal_is_stream_valid;
use nominal_bridge::api::nominal_is_writer_valid;
use nominal_bridge::api::nominal_push_bool_batch;
use nominal_bridge::api::nominal_push_double_batch;
use nominal_bridge::api::nominal_push_int64_batch;
use nominal_bridge::api::nominal_push_string_batch;
use nominal_bridge::api::nominal_shutdown;
use nominal_bridge::api::report_runtime_failure;
use nominal_bridge::errslot::ErrorSlot;
use nominal_bridge::registry::NominalService;

fn text(s: &str) -> TextArg {
    TextArg::Text(s.to_string())
}

fn make_stream(service: &mut NominalService, slot: &mut ErrorSlot) -> u64 {
    let (code, handle) = nominal_init(
        service,
        slot,
        false,
        TextArg::Null,
        text("ri.catalog.dataset"),
        text("fallback.avro"),
        None,
    );
    assert_eq!(code, 0);
    handle
}

#[test]
fn test_handle_allocation() {
    let mut service = NominalService::new();
    let h1 = service.allocate_stream_handle();
    let h2 = service.allocate_stream_handle();
    assert_ne!(h1, h2);
    assert!(h2 > h1);
}

#[test]
fn handles_strictly_increase_and_never_repeat() {
    let mut service = NominalService::new();
    let mut seen: Vec<u64> = Vec::new();
    for _ in 0..10 {
        let h = service.allocate_writer_handle();
        assert!(seen.iter().all(|&p| p < h));
        seen.push(h);
    }
}

#[test]
fn init_without_credential_or_fallback_is_rejected() {
    let mut service = NominalService::new();
    let mut slot = ErrorSlot::new();
    let (code, handle) = nominal_init(
        &mut service,
        &mut slot,
        false,
        TextArg::Null,
        text("ri.catalog.dataset"),
        TextArg::Null,
        None,
    );
    assert_eq!(code, -3);
    assert_eq!(handle, 0);
    let (rc, msg) = nominal_get_last_error(&slot, false, 256);
    assert_eq!(rc, 0);
    assert_eq!(msg, b"Either token or fallback file path must be provided\0".to_vec());
}

#[test]
fn init_with_null_output_pointer_is_rejected() {
    let mut service = NominalService::new();
    let mut slot = ErrorSlot::new();
    let (code, _) = nominal_init(
        &mut service,
        &mut slot,
        true,
        TextArg::Null,
        text("ri.catalog.dataset"),
        text("fallback.avro"),
        None,
    );
    assert_eq!(code, -3);
}

#[test]
fn init_with_env_credential_streams_to_core() {
    let mut service = NominalService::new();
    let mut slot = ErrorSlot::new();
    let (code, handle) = nominal_init(
        &mut service,
        &mut slot,
        false,
        TextArg::Null,
        text("ri.catalog.dataset"),
        TextArg::Null,
        Some("tok".to_string()),
    );
    assert_eq!(code, 0);
    assert_eq!(nominal_is_stream_valid(&service, handle), 1);
}

#[test]
fn init_rejects_undecodable_token() {
    let mut service = NominalService::new();
    let mut slot = ErrorSlot::new();
    let (code, _) = nominal_init(
        &mut service,
        &mut slot,
        false,
        TextArg::Invalid,
        text("ri.catalog.dataset"),
        text("fallback.avro"),
        None,
    );
    assert_eq!(code, -3);
    let (rc, msg) = nominal_get_last_error(&slot, false, 64);
    assert_eq!(rc, 0);
    assert_eq!(msg, b"Invalid token\0".to_vec());
}

#[test]
fn create_channel_rejects_null_name() {
    let mut service = NominalService::new();
    let mut slot = ErrorSlot::new();
    let sh = make_stream(&mut service, &mut slot);
    let (code, handle) = nominal_create_channel(
        &mut service,
        &mut slot,
        false,
        sh,
        TextArg::Null,
        TextArg::Null,
    );
    assert_eq!(code, -3);
    assert_eq!(handle, 0);
    let (rc, msg) = nominal_get_last_error(&slot, false, 64);
    assert_eq!(rc, 0);
    assert_eq!(msg, b"Invalid channel name\0".to_vec());
}

#[test]
fn create_channel_on_unknown_stream_is_rejected() {
    let mut service = NominalService::new();
    let mut slot = ErrorSlot::new();
    let (code, handle) = nominal_create_channel(
        &mut service,
        &mut slot,
        false,
        7,
        text("temp"),
        TextArg::Null,
    );
    assert_eq!(code, -2);
    assert_eq!(handle, 0);
    let (rc, msg) = nominal_get_last_error(&slot, false, 64);
    assert_eq!(rc, 0);
    assert_eq!(msg, b"Invalid stream handle: 7\0".to_vec());
}

#[test]
fn end_to_end_scenario() {
    let mut service = NominalService::new();
    let mut slot = ErrorSlot::new();
    let sh = make_stream(&mut service, &mut slot);
    assert_eq!(sh, 1);
    let (code, wh) = nominal_create_channel(
        &mut service,
        &mut slot,
        false,
        sh,
        text("temp"),
        text("unit=C"),
    );
    assert_eq!(code, 0);
    assert_eq!(wh, 1);
    let bits = 21.5f64.to_bits();
    let ts = vec![1000u64];
    let vs = vec![bits];
    let (code, batch) = nominal_push_double_batch(&service, &mut slot, wh, Some(&ts), Some(&vs), 1);
    assert_eq!(code, 0);
    assert_eq!(batch, vec![(1000u64, bits)]);
    assert_eq!(f64::from_bits(batch[0].1), 21.5);
    assert_eq!(nominal_flush_channel(&service, &mut slot, wh), 0);
    assert_eq!(nominal_close_channel(&mut service, &mut slot, wh), 0);
    assert_eq!(nominal_shutdown(&mut service, &mut slot, sh), 0);
    assert_eq!(nominal_is_stream_valid(&service, sh), 0);
    assert_eq!(nominal_is_writer_valid(&service, wh), 0);
    assert_eq!(nominal_flush(&service, &mut slot, sh), -2);
    assert_eq!(nominal_flush_channel(&service, &mut slot, wh), -2);
    let (code, _) = nominal_push_int64_batch(&service, &mut slot, wh, Some(&ts), Some(&vec![1i64]), 1);
    assert_eq!(code, -2);
    assert_eq!(nominal_close_channel(&mut service, &mut slot, wh), -2);
}

#[test]
fn stale_handles_stay_invalid() {
    let mut service = NominalService::new();
    let mut slot = ErrorSlot::new();
    let sh = make_stream(&mut service, &mut slot);
    let (_, wh) = nominal_create_channel(&mut service, &mut slot, false, sh, text("c"), TextArg::Null);
    assert_eq!(nominal_close_channel(&mut service, &mut slot, wh), 0);
    assert_eq!(nominal_close_channel(&mut service, &mut slot, wh), -2);
    assert_eq!(nominal_is_writer_valid(&service, wh), 0);
    // a later writer never reuses the removed handle
    let (_, wh2) = nominal_create_channel(&mut service, &mut slot, false, sh, text("d"), TextArg::Null);
    assert!(wh2 > wh);
    assert_eq!(nominal_is_writer_valid(&service, wh), 0);
}

#[test]
fn zero_count_push_succeeds_with_null_pointers() {
    let service = NominalService::new();
    let mut slot = ErrorSlot::new();
    let (c1, b1) = nominal_push_double_batch(&service, &mut slot, 99, None, None, 0);
    assert_eq!((c1, b1.len()), (0, 0));
    let (c2, b2) = nominal_push_int64_batch(&service, &mut slot, 99, None, None, 0);
    assert_eq!((c2, b2.len()), (0, 0));
    let (c3, b3) = nominal_push_bool_batch(&service, &mut slot, 99, None, None, 0);
    assert_eq!((c3, b3.len()), (0, 0));
    let (c4, b4) = nominal_push_string_batch(&service, &mut slot, 99, None, None, 0);
    assert_eq!((c4, b4.len()), (0, 0));
}

#[test]
fn positive_count_with_null_pointer_is_rejected() {
    let service = NominalService::new();
    let mut slot = ErrorSlot::new();
    let ts = vec![1u64];
    let (code, batch) = nominal_push_int64_batch(&service, &mut slot, 1, Some(&ts), None, 1);
    assert_eq!(code, -3);
    assert_eq!(batch.len(), 0);
    let (rc, msg) = nominal_get_last_error(&slot, false, 64);
    assert_eq!(rc, 0);
    assert_eq!(msg, b"Null pointer provided for data arrays\0".to_vec());
}

#[test]
fn batch_order_is_preserved() {
    let mut service = NominalService::new();
    let mut slot = ErrorSlot::new();
    let sh = make_stream(&mut service, &mut slot);
    let (_, w1) = nominal_create_channel(&mut service, &mut slot, false, sh, text("a"), TextArg::Null);
    let (_, w2) = nominal_create_channel(&mut service, &mut slot, false, sh, text("b"), TextArg::Null);
    let ts = vec![1u64, 2, 3];
    let vs1 = vec![10i64, 20, 30];
    let vs2 = vec![7i64, 8, 9];
    let (c1, batch1) = nominal_push_int64_batch(&service, &mut slot, w1, Some(&ts), Some(&vs1), 3);
    let (c2, batch2) = nominal_push_int64_batch(&service, &mut slot, w2, Some(&ts), Some(&vs2), 3);
    assert_eq!(c1, 0);
    assert_eq!(c2, 0);
    assert_eq!(batch1, vec![(1, 10), (2, 20), (3, 30)]);
    assert_eq!(batch2, vec![(1, 7), (2, 8), (3, 9)]);
}

#[test]
fn bool_batch_decodes_bytes() {
    let mut service = NominalService::new();
    let mut slot = ErrorSlot::new();
    let sh = make_stream(&mut service, &mut slot);
    let (_, wh) = nominal_create_channel(&mut service, &mut slot, false, sh, text("flag"), TextArg::Null);
    let ts = vec![1u64, 2, 3];
    let vs = vec![0u8, 1, 2];
    let (code, batch) = nominal_push_bool_batch(&service, &mut slot, wh, Some(&ts), Some(&vs), 3);
    assert_eq!(code, 0);
    assert_eq!(batch, vec![(1, false), (2, true), (3, true)]);
}

#[test]
fn string_batch_fails_at_first_invalid_element() {
    let mut service = NominalService::new();
    let mut slot = ErrorSlot::new();
    let sh = make_stream(&mut service, &mut slot);
    let (_, wh) = nominal_create_channel(&mut service, &mut slot, false, sh, text("s"), TextArg::Null);
    let ts = vec![1u64, 2, 3];
    let vs = vec![text("x"), TextArg::Null, text("z")];
    let (code, batch) = nominal_push_string_batch(&service, &mut slot, wh, Some(&ts), Some(&vs), 3);
    assert_eq!(code, -3);
    assert_eq!(batch.len(), 1);
    assert_eq!(batch[0].0, 1);
    assert_eq!(batch[0].1, "x".to_string());
    let (rc, msg) = nominal_get_last_error(&slot, false, 64);
    assert_eq!(rc, 0);
    assert_eq!(msg, b"Invalid string at index 1\0".to_vec());
}

#[test]
fn error_slot_is_isolated_per_caller() {
    let service = NominalService::new();
    let mut slot_a = ErrorSlot::new();
    let slot_b = ErrorSlot::new();
    assert_eq!(nominal_flush(&service, &mut slot_a, 42), -2);
    let (rc_b, msg_b) = nominal_get_last_error(&slot_b, false, 64);
    assert_eq!(rc_b, -1);
    assert_eq!(msg_b, vec![0u8]);
    let (rc_a, msg_a) = nominal_get_last_error(&slot_a, false, 64);
    assert_eq!(rc_a, 0);
    assert_eq!(msg_a, b"Invalid stream handle: 42\0".to_vec());
}

#[test]
fn error_message_truncates_silently() {
    let service = NominalService::new();
    let mut slot = ErrorSlot::new();
    assert_eq!(nominal_flush(&service, &mut slot, 1), -2);
    let (rc, msg) = nominal_get_last_error(&slot, false, 8);
    assert_eq!(rc, 0);
    assert_eq!(msg, b"Invalid\0".to_vec());
    let (rc2, _) = nominal_get_last_error(&slot, false, 0);
    assert_eq!(rc2, -3);
    let (rc3, _) = nominal_get_last_error(&slot, true, 8);
    assert_eq!(rc3, -3);
}

#[test]
fn runtime_failure_reporting() {
    let mut slot = ErrorSlot::new();
    let code = report_runtime_failure(&mut slot, "Flush failed: backend gone".to_string());
    assert_eq!(code, -4);
    let (rc, msg) = nominal_get_last_error(&slot, false, 256);
    assert_eq!(rc, 0);
    assert_eq!(msg, b"Flush failed: backend gone\0".to_vec());
}

#[test]
fn version_is_reported_and_truncated() {
    let (rc, bytes) = nominal_get_version(false, 64);
    assert_eq!(rc, 0);
    assert_eq!(bytes, b"0.1.0\0".to_vec());
    let (rc2, short) = nominal_get_version(false, 3);
    assert_eq!(rc2, 0);
    assert_eq!(short, b"0.\0".to_vec());
    let (rc3, _) = nominal_get_version(false, 0);
    assert_eq!(rc3, -3);
}

#[test]
fn channel_name_is_reported() {
    let mut service = NominalService::new();
    let mut slot = ErrorSlot::new();
    let sh = make_stream(&mut service, &mut slot);
    let (_, wh) = nominal_create_channel(&mut service, &mut slot, false, sh, text("temp"), text("unit=C"));
    let (rc, bytes) = nominal_get_channel_name(&service, &mut slot, wh, false, 64);
    assert_eq!(rc, 0);
    assert_eq!(bytes, b"temp\0".to_vec());
    let (rc2, _) = nominal_get_channel_name(&service, &mut slot, 99, false, 64);
    assert_eq!(rc2, -2);
}

#[test]
fn active_counts_track_registries() {
    let mut service = NominalService::new();
    let mut slot = ErrorSlot::new();
    assert_eq!(nominal_get_active_streams(&service), 0);
    assert_eq!(nominal_get_active_writers(&service), 0);
    let sh = make_stream(&mut service, &mut slot);
    let (_, wh) = nominal_create_channel(&mut service, &mut slot, false, sh, text("c"), TextArg::Null);
    assert_eq!(nominal_get_active_streams(&service), 1);
    assert_eq!(nominal_get_active_writers(&service), 1);
    assert_eq!(nominal_close_channel(&mut service, &mut slot, wh), 0);
    assert_eq!(nominal_get_active_writers(&service), 0);
}
