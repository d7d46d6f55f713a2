use might::failure::{Call, Failure};
use might::receipt::{decode_receipt, read_fields, read_reply, Fields, Receipt, CREATED};

fn acme() -> Receipt {
    Receipt {
        date_at: "2024-01-01".to_string(),
        customer_name: "Acme".to_string(),
        project_name: "Website".to_string(),
        service_name: "Dev".to_string(),
        minutes: 480,
    }
}

const ACME_BODY: &str = "{\"time_entry\":{\"id\":36159117,\"date_at\":\"2024-01-01\",\
    \"customer_name\":\"Acme\",\"project_name\":\"Website\",\"service_name\":\"Dev\",\
    \"minutes\":480,\"note\":\"\",\"billable\":true}}";

const UNDECODABLE: Result<Receipt, Failure> = Err(Failure::Decode(Call::CreateEntry));

#[test]
fn created_answer_is_summarised_in_two_lines() {
    let receipt = read_reply(201, ACME_BODY.as_bytes()).unwrap();
    assert_eq!(receipt, acme());
    assert_eq!(receipt.summary(), "2024-01-01\nAcme / Website / Dev\t\t8h");
    let summary = receipt.summary();
    let lines: Vec<&str> = summary.lines().collect();
    assert_eq!(lines, vec!["2024-01-01", "Acme / Website / Dev\t\t8h"]);
}

#[test]
fn created_status_is_201() {
    assert_eq!(CREATED, 201);
}

#[test]
fn hours_are_rounded_down() {
    let mut receipt = acme();
    for (minutes, hours) in
        [(0u64, 0u64), (1, 0), (59, 0), (60, 1), (61, 1), (119, 1), (120, 2), (479, 7), (481, 8)]
    {
        receipt.minutes = minutes;
        assert_eq!(receipt.hours(), hours);
        assert_eq!(
            receipt.summary(),
            format!("2024-01-01\nAcme / Website / Dev\t\t{}h", hours)
        );
    }
    receipt.minutes = u64::MAX;
    assert_eq!(receipt.hours(), 307_445_734_561_825_860);
    assert_eq!(
        receipt.summary(),
        "2024-01-01\nAcme / Website / Dev\t\t307445734561825860h"
    );
}

#[test]
fn summary_keeps_the_texts_as_they_are() {
    let receipt = Receipt {
        date_at: String::new(),
        customer_name: "Müller & Söhne".to_string(),
        project_name: "a / b".to_string(),
        service_name: "\t".to_string(),
        minutes: 90,
    };
    assert_eq!(receipt.summary(), "\nMüller & Söhne / a / b / \t\t\t1h");
}

#[test]
fn from_fields_needs_all_five() {
    let full = Fields {
        date_at: Some("2024-01-01".to_string()),
        customer_name: Some("Acme".to_string()),
        project_name: Some("Website".to_string()),
        service_name: Some("Dev".to_string()),
        minutes: Some(480),
    };
    assert_eq!(Receipt::from_fields(full.clone()), Ok(acme()));
    assert_eq!(Receipt::from_fields(Fields { date_at: None, ..full.clone() }), UNDECODABLE);
    assert_eq!(Receipt::from_fields(Fields { customer_name: None, ..full.clone() }), UNDECODABLE);
    assert_eq!(Receipt::from_fields(Fields { project_name: None, ..full.clone() }), UNDECODABLE);
    assert_eq!(Receipt::from_fields(Fields { service_name: None, ..full.clone() }), UNDECODABLE);
    assert_eq!(Receipt::from_fields(Fields { minutes: None, ..full }), UNDECODABLE);
}

#[test]
fn read_fields_looks_inside_time_entry() {
    let document = serde_json::from_str::<serde_json::Value>(ACME_BODY).unwrap();
    assert_eq!(
        read_fields(&document),
        Fields {
            date_at: Some("2024-01-01".to_string()),
            customer_name: Some("Acme".to_string()),
            project_name: Some("Website".to_string()),
            service_name: Some("Dev".to_string()),
            minutes: Some(480),
        }
    );
}

#[test]
fn read_fields_of_a_document_without_time_entry() {
    let nothing =
        Fields { date_at: None, customer_name: None, project_name: None, service_name: None, minutes: None };
    for text in [
        "{}",
        "null",
        "[]",
        "7",
        "\"time_entry\"",
        "{\"time_entry\":null}",
        "{\"time_entry\":[\"date_at\"]}",
        "{\"date_at\":\"2024-01-01\",\"customer_name\":\"Acme\",\"minutes\":480}",
    ] {
        let document = serde_json::from_str::<serde_json::Value>(text).unwrap();
        assert_eq!(read_fields(&document), nothing);
    }
}

#[test]
fn read_fields_tells_the_members_apart() {
    let text = "{\"time_entry\":{\"date_at\":\"d\",\"customer_name\":\"c\",\
        \"project_name\":\"p\",\"service_name\":\"s\",\"minutes\":61}}";
    let document = serde_json::from_str::<serde_json::Value>(text).unwrap();
    let fields = read_fields(&document);
    assert_eq!(fields.date_at.as_deref(), Some("d"));
    assert_eq!(fields.customer_name.as_deref(), Some("c"));
    assert_eq!(fields.project_name.as_deref(), Some("p"));
    assert_eq!(fields.service_name.as_deref(), Some("s"));
    assert_eq!(fields.minutes, Some(61));
}

#[test]
fn member_of_another_kind_counts_as_missing() {
    let text = "{\"time_entry\":{\"date_at\":20240101,\"customer_name\":null,\
        \"project_name\":[\"Website\"],\"service_name\":{\"name\":\"Dev\"},\"minutes\":\"480\"}}";
    let document = serde_json::from_str::<serde_json::Value>(text).unwrap();
    assert_eq!(
        read_fields(&document),
        Fields { date_at: None, customer_name: None, project_name: None, service_name: None, minutes: None }
    );
}

#[test]
fn minutes_must_be_a_whole_number_without_sign() {
    for (minutes, expected) in [
        ("0", Some(0u64)),
        ("480", Some(480)),
        ("18446744073709551615", Some(u64::MAX)),
        ("-1", None),
        ("480.0", None),
        ("4.8e2", None),
        ("18446744073709551616", None),
        ("true", None),
    ] {
        let text = format!("{{\"time_entry\":{{\"minutes\":{}}}}}", minutes);
        let document = serde_json::from_str::<serde_json::Value>(&text).unwrap();
        assert_eq!(read_fields(&document).minutes, expected);
    }
}

#[test]
fn decode_receipt_reads_the_embedded_entry() {
    assert_eq!(decode_receipt(ACME_BODY.as_bytes()), Ok(acme()));
}

#[test]
fn decode_receipt_allows_blanks_and_any_order() {
    let body = " {\n \"time_entry\" : { \"minutes\" : 125 , \"service_name\" : \"Dev\",\n\
        \"project_name\":\"Website\", \"customer_name\" : \"Acme\", \"date_at\":\"2024-02-29\" } }\n";
    let receipt = decode_receipt(body.as_bytes()).unwrap();
    assert_eq!(receipt.date_at, "2024-02-29");
    assert_eq!(receipt.minutes, 125);
    assert_eq!(receipt.summary(), "2024-02-29\nAcme / Website / Dev\t\t2h");
}

#[test]
fn decode_receipt_unescapes_texts() {
    let body = "{\"time_entry\":{\"date_at\":\"2024-01-01\",\"customer_name\":\"M\\u00fcller\",\
        \"project_name\":\"a\\\"b\",\"service_name\":\"x\\\\y\",\"minutes\":60}}";
    let receipt = decode_receipt(body.as_bytes()).unwrap();
    assert_eq!(receipt.customer_name, "Müller");
    assert_eq!(receipt.project_name, "a\"b");
    assert_eq!(receipt.service_name, "x\\y");
}

#[test]
fn decode_receipt_refuses_what_is_no_json() {
    for body in [
        "",
        " ",
        "{",
        "time_entry",
        "{\"time_entry\":{\"minutes\":480,}}",
        "{\"time_entry\":{}} trailing",
        "<html></html>",
    ] {
        assert_eq!(decode_receipt(body.as_bytes()), UNDECODABLE);
    }
    assert_eq!(decode_receipt(&[0xff, 0xfe, 0x00]), UNDECODABLE);
    assert_eq!(decode_receipt(&[b'"', 0xc3, 0x28, b'"']), UNDECODABLE);
}

#[test]
fn decode_receipt_refuses_a_missing_field() {
    let members = [
        "\"date_at\":\"2024-01-01\"",
        "\"customer_name\":\"Acme\"",
        "\"project_name\":\"Website\"",
        "\"service_name\":\"Dev\"",
        "\"minutes\":480",
    ];
    for left_out in 0..members.len() {
        let kept: Vec<&str> = members
            .iter()
            .enumerate()
            .filter(|(i, _)| *i != left_out)
            .map(|(_, m)| *m)
            .collect();
        let body = format!("{{\"time_entry\":{{{}}}}}", kept.join(","));
        assert_eq!(decode_receipt(body.as_bytes()), UNDECODABLE);
    }
    let body = format!("{{\"time_entry\":{{{}}}}}", members.join(","));
    assert_eq!(decode_receipt(body.as_bytes()), Ok(acme()));
}

#[test]
fn decode_receipt_refuses_fields_outside_time_entry() {
    let body = "{\"date_at\":\"2024-01-01\",\"customer_name\":\"Acme\",\
        \"project_name\":\"Website\",\"service_name\":\"Dev\",\"minutes\":480}";
    assert_eq!(decode_receipt(body.as_bytes()), UNDECODABLE);
}

#[test]
fn the_same_body_decodes_to_the_same_receipt() {
    let first = decode_receipt(ACME_BODY.as_bytes());
    let second = decode_receipt(ACME_BODY.as_bytes());
    assert_eq!(first, second);
}

#[test]
fn any_other_status_is_a_refusal() {
    for status in [0u16, 100, 200, 202, 204, 301, 400, 401, 404, 422, 500, 503, u16::MAX] {
        assert_eq!(
            read_reply(status, ACME_BODY.as_bytes()),
            Err(Failure::SubmissionRejected(status))
        );
        assert_eq!(read_reply(status, b"no json"), Err(Failure::SubmissionRejected(status)));
    }
}

#[test]
fn created_answer_with_a_bad_body_is_a_decode_failure() {
    assert_eq!(read_reply(201, b"no json"), UNDECODABLE);
    assert_eq!(read_reply(201, b"{\"time_entry\":{\"minutes\":480}}"), UNDECODABLE);
    assert_eq!(read_reply(201, b""), UNDECODABLE);
}

#[test]
fn confirmed_minutes_show_the_entered_hours() {
    let project = might::model::Project {
        id: 10,
        name: "Website".to_string(),
        note: String::new(),
        customer_id: 1,
    };
    let service = might::model::Service {
        id: 5,
        name: "Dev".to_string(),
        archived: false,
        billable: true,
        note: String::new(),
    };
    for hours in [0u32, 1, 8, 23, 1000, u32::MAX] {
        let entry = might::entry::TimeEntry::new(hours, &project, &service, String::new());
        let mut receipt = acme();
        receipt.minutes = entry.minutes;
        assert_eq!(receipt.hours(), u64::from(hours));
        assert_eq!(
            receipt.summary(),
            format!("2024-01-01\nAcme / Website / Dev\t\t{}h", hours)
        );
    }
}
