//! Record construction, partial-update merging, and response shaping.

use catalog_core::catalog::{
    delete_outcome, manufacturer_response, merge_manufacturer_update, merge_model_update,
    model_response, new_manufacturer_record, new_model_record, CreateManufacturerRequest,
    CreateModelRequest, ManufacturerRecord, UpdateManufacturerRequest, UpdateModelRequest,
};
use catalog_core::errors::ApiError;

fn create_request() -> CreateModelRequest {
    CreateModelRequest {
        name: "RX-78-2".to_string(),
        series: Some("Mobile Suit".to_string()),
        grade: Some("MG".to_string()),
        release_date: Some(10_957),
        status: "released".to_string(),
        manufacturer_id: 3,
        parent_id: None,
        notes: Some("first run".to_string()),
    }
}

#[test]
fn create_fills_record_and_timestamps() {
    let record = new_model_record(create_request(), 12, 1_700_000_000);
    assert_eq!(record.id, 12);
    assert_eq!(record.name, "RX-78-2");
    assert_eq!(record.series.as_deref(), Some("Mobile Suit"));
    assert_eq!(record.grade.as_deref(), Some("MG"));
    assert_eq!(record.release_date, Some(10_957));
    assert_eq!(record.status, "released");
    assert_eq!(record.manufacturer_id, 3);
    assert_eq!(record.parent_id, None);
    assert_eq!(record.notes.as_deref(), Some("first run"));
    assert_eq!(record.created_at, 1_700_000_000);
    assert_eq!(record.updated_at, 1_700_000_000);
}

#[test]
fn partial_update_keeps_untouched_fields() {
    let existing = new_model_record(create_request(), 12, 1_700_000_000);
    let update = UpdateModelRequest {
        name: Some("RX-78-2 Ver.Ka".to_string()),
        series: None,
        grade: None,
        release_date: None,
        status: None,
        manufacturer_id: None,
        parent_id: Some(4),
        notes: None,
    };
    let merged = merge_model_update(&existing, update, 1_800_000_000);
    assert_eq!(merged.id, 12);
    assert_eq!(merged.name, "RX-78-2 Ver.Ka");
    // untouched fields keep their current values, not defaults
    assert_eq!(merged.series.as_deref(), Some("Mobile Suit"));
    assert_eq!(merged.grade.as_deref(), Some("MG"));
    assert_eq!(merged.release_date, Some(10_957));
    assert_eq!(merged.status, "released");
    assert_eq!(merged.manufacturer_id, 3);
    assert_eq!(merged.parent_id, Some(4));
    assert_eq!(merged.notes.as_deref(), Some("first run"));
    assert_eq!(merged.created_at, 1_700_000_000);
    assert_eq!(merged.updated_at, 1_800_000_000);
}

#[test]
fn full_update_replaces_every_field() {
    let existing = new_model_record(create_request(), 12, 1_700_000_000);
    let update = UpdateModelRequest {
        name: Some("Zaku II".to_string()),
        series: Some("MSV".to_string()),
        grade: Some("HG".to_string()),
        release_date: Some(11_000),
        status: Some("announced".to_string()),
        manufacturer_id: Some(9),
        parent_id: Some(1),
        notes: Some("repaint".to_string()),
    };
    let merged = merge_model_update(&existing, update, 1_800_000_000);
    assert_eq!(merged.name, "Zaku II");
    assert_eq!(merged.series.as_deref(), Some("MSV"));
    assert_eq!(merged.grade.as_deref(), Some("HG"));
    assert_eq!(merged.release_date, Some(11_000));
    assert_eq!(merged.status, "announced");
    assert_eq!(merged.manufacturer_id, 9);
    assert_eq!(merged.parent_id, Some(1));
    assert_eq!(merged.notes.as_deref(), Some("repaint"));
}

#[test]
fn model_response_mirrors_record() {
    let record = new_model_record(create_request(), 12, 1_700_000_000);
    let resp = model_response(record.clone());
    assert_eq!(resp.id, record.id);
    assert_eq!(resp.name, record.name);
    assert_eq!(resp.series, record.series);
    assert_eq!(resp.status, record.status);
    assert_eq!(resp.created_at, record.created_at);
    assert_eq!(resp.updated_at, record.updated_at);
}

#[test]
fn model_request_shape_rules() {
    let mut ok = create_request();
    assert!(ok.is_valid());
    ok.name = "".to_string();
    assert!(!ok.is_valid());
    let mut long_series = create_request();
    long_series.series = Some("x".repeat(101));
    assert!(!long_series.is_valid());
    let mut long_grade = create_request();
    long_grade.grade = Some("x".repeat(51));
    assert!(!long_grade.is_valid());

    let empty_update = UpdateModelRequest {
        name: None,
        series: None,
        grade: None,
        release_date: None,
        status: None,
        manufacturer_id: None,
        parent_id: None,
        notes: None,
    };
    assert!(empty_update.is_valid());
    let bad_update = UpdateModelRequest {
        name: Some("".to_string()),
        series: None,
        grade: None,
        release_date: None,
        status: None,
        manufacturer_id: None,
        parent_id: None,
        notes: None,
    };
    assert!(!bad_update.is_valid());
}

#[test]
fn manufacturer_create_merge_and_response() {
    let created = new_manufacturer_record(
        CreateManufacturerRequest {
            name: "Bandai".to_string(),
            country: "Japan".to_string(),
            active_period_start: Some(2_000),
            active_period_end: None,
        },
        5,
    );
    assert_eq!(created.id, 5);
    assert_eq!(created.name, "Bandai");
    assert_eq!(created.country, "Japan");
    assert_eq!(created.active_period_start, Some(2_000));
    assert_eq!(created.active_period_end, None);
    assert_eq!(created.models_count, None);

    let merged = merge_manufacturer_update(
        &created,
        UpdateManufacturerRequest {
            name: None,
            country: Some("JP".to_string()),
            active_period_start: None,
            active_period_end: Some(20_000),
        },
    );
    assert_eq!(merged.id, 5);
    assert_eq!(merged.name, "Bandai");
    assert_eq!(merged.country, "JP");
    assert_eq!(merged.active_period_start, Some(2_000));
    assert_eq!(merged.active_period_end, Some(20_000));

    let resp = manufacturer_response(merged);
    assert_eq!(resp.id, 5);
    assert_eq!(resp.name, "Bandai");
    assert_eq!(resp.country, "JP");
}

#[test]
fn manufacturer_request_shape_rules() {
    let ok = CreateManufacturerRequest {
        name: "Kotobukiya".to_string(),
        country: "Japan".to_string(),
        active_period_start: None,
        active_period_end: None,
    };
    assert!(ok.is_valid());
    let bad = CreateManufacturerRequest {
        name: "".to_string(),
        country: "Japan".to_string(),
        active_period_start: None,
        active_period_end: None,
    };
    assert!(!bad.is_valid());
    let long_country = UpdateManufacturerRequest {
        name: None,
        country: Some("x".repeat(101)),
        active_period_start: None,
        active_period_end: None,
    };
    assert!(!long_country.is_valid());
}

#[test]
fn records_with_extremes() {
    let record = ManufacturerRecord {
        id: i32::MAX,
        name: "x".repeat(255),
        country: String::new(),
        active_period_start: Some(i32::MIN),
        active_period_end: Some(i32::MAX),
        models_count: Some(i64::MAX),
    };
    let resp = manufacturer_response(record);
    assert_eq!(resp.id, i32::MAX);
    assert_eq!(resp.models_count, Some(i64::MAX));
}

#[test]
fn deleting_an_absent_resource_is_not_found() {
    assert_eq!(delete_outcome(0).unwrap_err(), ApiError::NotFound);
    assert_eq!(delete_outcome(1), Ok(()));
    assert_eq!(delete_outcome(3), Ok(()));
}
